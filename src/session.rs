use vstd::prelude::*;

use crate::conversation::{retracted, Conversation, HistoryEntry};
use crate::error::{ChatError, ErrorView};
use crate::model::{Message, Turn};
use crate::repl::{command_named, parse_line, Command, InputLine};
use crate::stream::{
    fold_events, is_payload, lemma_end_is_final, lemma_payload_prefix, outcome_view,
    stream_outcome, text_of, StreamEvent,
};
use crate::text::{join_words, joined};

verus! {

/// The settings of a session that its logic reads.
#[derive(Debug)]
pub struct SessionOptions {
    /// The model to ask.
    pub model: String,
    /// Whether answers are asked for as a stream of fragments.
    pub stream: bool,
    /// The key that authorises the requests.
    pub api_key: String,
    /// The address under which the service answers.
    pub api_base_url: String,
    /// The system prompt; an empty one is asked for interactively.
    pub system: Option<String>,
    /// The words of a single question; none means an interactive session.
    pub prompt: Vec<String>,
}

/// A session as the contracts see it.
pub struct SessionView {
    pub turns: Seq<Turn>,
    pub awaiting_reply: bool,
    pub is_stdin: bool,
    pub is_stdout: bool,
    pub prompt: Seq<Seq<char>>,
    pub system: Option<Seq<char>>,
}

/// A turn of the user with the given text.
pub open spec fn user_turn(text: Seq<char>) -> Turn {
    Turn { role: "user"@, content: text }
}

/// A system turn with the given text.
pub open spec fn system_turn(text: Seq<char>) -> Turn {
    Turn { role: "system"@, content: text }
}

/// Whether a session reads its questions interactively.
pub open spec fn interactive(v: SessionView) -> bool {
    v.prompt.len() == 0 && v.is_stdout && v.is_stdin
}

/// The text of a single question: the words given, joined by spaces; else
/// what was piped in, when input is not a terminal.
pub open spec fn one_shot_text(v: SessionView, piped: Option<Seq<char>>) -> Option<Seq<char>> {
    if v.prompt.len() > 0 {
        Some(joined(v.prompt, " "@))
    } else if !v.is_stdin {
        piped
    } else {
        None
    }
}

/// The system turn that opens a conversation, if any.
pub open spec fn system_seed(system: Option<Seq<char>>) -> Seq<Turn> {
    match system {
        Some(s) => seq![system_turn(s)],
        None => Seq::empty(),
    }
}

/// The system turn of an interactive session: the one configured, else the
/// one typed when an empty one was configured.
pub open spec fn interactive_seed(system: Option<Seq<char>>, typed: Option<Seq<char>>) -> Seq<
    Turn,
> {
    match system {
        Some(s) => if s.len() > 0 {
            seq![system_turn(s)]
        } else {
            match typed {
                Some(t) => seq![system_turn(t)],
                None => Seq::empty(),
            }
        },
        None => Seq::empty(),
    }
}

/// The conversation once a turn is settled: the reply follows the user turn,
/// or, on failure, the user turn is taken back.
pub open spec fn settle(turns: Seq<Turn>, outcome: Result<Turn, ErrorView>) -> Seq<Turn> {
    match outcome {
        Ok(reply) => turns.push(reply),
        Err(_) => turns.drop_last(),
    }
}

/// The answer to a directive typed at the prompt.
#[derive(Debug)]
pub enum CommandReply {
    /// The list of commands should be shown.
    Help,
    /// The last user turn and what followed it were taken back.
    Retracted,
    /// Nothing could be taken back.
    RetractFailed(ChatError),
    /// The conversation so far.
    History(Vec<HistoryEntry>),
    /// No command has this name.
    Unknown(String),
}

/// What to do with a line typed at the prompt.
#[derive(Debug)]
pub enum LineOutcome {
    /// Nothing: ask again.
    Ignore,
    /// Send it as a user turn.
    Prompt(String),
    /// A directive was carried out; show its answer, then ask again.
    Reply(CommandReply),
}

/// What carrying out a directive does: the answer it gives and the session
/// it leaves.
pub open spec fn command_effect(
    before: SessionView,
    cmd: Command,
    r: CommandReply,
    after: SessionView,
) -> bool {
    match cmd {
        Command::Help => r is Help && after == before,
        Command::Back => match retracted(before.turns) {
            Some(rest) => r is Retracted && after == (SessionView {
                turns: rest,
                awaiting_reply: false,
                ..before
            }),
            None => (r matches CommandReply::RetractFailed(e) && e@
                == ErrorView::NoMessageToRetract) && after == (SessionView {
                awaiting_reply: false,
                ..before
            }),
        },
        Command::History => after == before && (r matches CommandReply::History(h) && h@.len()
            == before.turns.len() && forall|i: int|
            #![trigger h@[i]]
            0 <= i < h@.len() ==> h@[i].index == i && h@[i].role@ == before.turns[i].role
                && h@[i].content@ == before.turns[i].content),
        Command::Unknown(name) => after == before && (r matches CommandReply::Unknown(n) && n@
            == name@),
    }
}

/// One conversation with the service and the settings it runs under.
#[derive(Debug)]
pub struct Session {
    options: SessionOptions,
    conversation: Conversation,
    is_stdin: bool,
    is_stdout: bool,
    awaiting_reply: bool,
}

impl View for Session {
    type V = SessionView;

    closed spec fn view(&self) -> SessionView {
        SessionView {
            turns: self.conversation@,
            awaiting_reply: self.awaiting_reply && self.conversation@.len() > 0
                && self.conversation@.last().role == "user"@,
            is_stdin: self.is_stdin,
            is_stdout: self.is_stdout,
            prompt: self.options.prompt@.map_values(|w: String| w@),
            system: text_of(self.options.system),
        }
    }
}

impl Session {
    /// A session with an empty conversation.
    pub fn new(options: SessionOptions, is_stdin: bool, is_stdout: bool) -> (r: Session)
        ensures
            r@.turns == Seq::<Turn>::empty(),
            !r@.awaiting_reply,
            r@.is_stdin == is_stdin,
            r@.is_stdout == is_stdout,
            r@.prompt == options.prompt@.map_values(|w: String| w@),
            r@.system == text_of(options.system),
            r.options() == options,
    {
        Session {
            options,
            conversation: Conversation::new(),
            is_stdin,
            is_stdout,
            awaiting_reply: false,
        }
    }

    /// The settings the session runs under.
    pub closed spec fn options(&self) -> SessionOptions {
        self.options
    }

    /// The settings the session runs under.
    pub fn settings(&self) -> (r: &SessionOptions)
        ensures
            *r == self.options(),
    {
        &self.options
    }

    /// The conversation so far.
    pub fn conversation(&self) -> (r: &Conversation)
        ensures
            r@ == self@.turns,
    {
        &self.conversation
    }

    /// Whether a user turn waits for its reply.
    pub fn awaiting_reply(&self) -> (r: bool)
        ensures
            r == self@.awaiting_reply,
    {
        self.awaiting_reply && self.conversation.last_is_user()
    }

    /// Whether questions are read interactively: no question was given and
    /// neither input nor output is redirected.
    pub fn is_interactive(&self) -> (r: bool)
        ensures
            r == interactive(self@),
    {
        self.options.prompt.len() == 0 && self.is_stdout && self.is_stdin
    }

    /// Whether a single question has to be read from redirected input.
    pub fn needs_piped_input(&self) -> (r: bool)
        ensures
            r == (self@.prompt.len() == 0 && !self@.is_stdin),
    {
        self.options.prompt.len() == 0 && !self.is_stdin
    }

    /// Opens a single-question session: the system turn, if configured, then
    /// the question as a user turn.
    pub fn prepare_one_shot(&mut self, piped: Option<String>) -> (r: Result<(), ChatError>)
        ensures
            match one_shot_text(old(self)@, text_of(piped)) {
                Some(q) => r is Ok && final(self)@ == (SessionView {
                    turns: old(self)@.turns + system_seed(old(self)@.system) + seq![user_turn(q)],
                    awaiting_reply: true,
                    ..old(self)@
                }),
                None => r matches Err(e) && e@ == ErrorView::MissingPrompt && final(self)@ == old(
                    self,
                )@,
            },
            final(self).options() == old(self).options(),
    {
        let question = if self.options.prompt.len() > 0 {
            join_words(&self.options.prompt, " ")
        } else if !self.is_stdin {
            match piped {
                Some(p) => p,
                None => {
                    return Err(ChatError::MissingPrompt);
                },
            }
        } else {
            return Err(ChatError::MissingPrompt);
        };
        let ghost before = self.conversation@;
        match &self.options.system {
            Some(s) => {
                self.conversation.push(Message::new("system", s.clone()));
            },
            None => {},
        }
        self.conversation.push(Message::new("user", question));
        self.awaiting_reply = true;
        assert(self.conversation@ =~= before + system_seed(old(self)@.system) + seq![
            user_turn(question@),
        ]);
        Ok(())
    }

    /// Whether an interactive session has to ask for its system prompt.
    pub fn asks_for_system_prompt(&self) -> (r: bool)
        ensures
            r == (self@.system matches Some(s) && s.len() == 0),
    {
        match &self.options.system {
            Some(s) => s.as_str().is_empty(),
            None => false,
        }
    }

    /// Opens an interactive session with its system turn, if any: the one
    /// configured, else the one typed when an empty one was configured.
    pub fn start_interactive(&mut self, typed: Option<String>)
        ensures
            final(self)@ == (SessionView {
                turns: old(self)@.turns + interactive_seed(old(self)@.system, text_of(typed)),
                awaiting_reply: false,
                ..old(self)@
            }),
            final(self).options() == old(self).options(),
    {
        let ghost before = self.conversation@;
        self.awaiting_reply = false;
        let seed = match &self.options.system {
            Some(s) => if !s.as_str().is_empty() {
                Some(s.clone())
            } else {
                typed
            },
            None => None,
        };
        match seed {
            Some(t) => {
                self.conversation.push(Message::new("system", t));
                assert(self.conversation@ =~= before + interactive_seed(
                    old(self)@.system,
                    text_of(typed),
                ));
            },
            None => {
                assert(before + interactive_seed(old(self)@.system, text_of(typed)) =~= before);
            },
        }
    }

    /// The turns to send with the next request, in conversation order.
    pub fn request_messages(&self) -> (r: Vec<Message>)
        ensures
            r@.map_values(|m: Message| m@) == self@.turns,
    {
        self.conversation.snapshot()
    }

    /// Appends the user turn of a new exchange; its reply is then awaited.
    pub fn begin_turn(&mut self, prompt: String)
        ensures
            final(self)@ == (SessionView {
                turns: old(self)@.turns.push(user_turn(prompt@)),
                awaiting_reply: true,
                ..old(self)@
            }),
            final(self).options() == old(self).options(),
    {
        self.awaiting_reply = false;
        self.conversation.push(Message::new("user", prompt));
        self.awaiting_reply = true;
    }

    /// Settles the awaited reply: on success it joins the conversation; on
    /// failure the user turn is taken back, so that the conversation is as it
    /// was before the exchange began, and the error is handed on.
    pub fn finish_turn(&mut self, outcome: Result<Message, ChatError>) -> (r: Result<(), ChatError>)
        requires
            old(self)@.awaiting_reply,
        ensures
            final(self)@ == (SessionView {
                turns: settle(old(self)@.turns, outcome_view(outcome)),
                awaiting_reply: false,
                ..old(self)@
            }),
            final(self).options() == old(self).options(),
            match outcome {
                Ok(_) => r is Ok,
                Err(e) => r == Err::<(), ChatError>(e),
            },
    {
        let ghost before = self.conversation@;
        self.awaiting_reply = false;
        match outcome {
            Ok(m) => {
                self.conversation.push(m);
                Ok(())
            },
            Err(e) => {
                let _ = self.conversation.retract();
                proof {
                    lemma_last_user_retracted(before);
                }
                Err(e)
            },
        }
    }

    /// Carries out a directive typed at the prompt.
    pub fn run_command(&mut self, cmd: Command) -> (r: CommandReply)
        ensures
            final(self).options() == old(self).options(),
            command_effect(old(self)@, cmd, r, final(self)@),
    {
        match cmd {
            Command::Help => CommandReply::Help,
            Command::Back => {
                self.awaiting_reply = false;
                match self.conversation.retract() {
                    Ok(()) => CommandReply::Retracted,
                    Err(e) => CommandReply::RetractFailed(e),
                }
            },
            Command::History => CommandReply::History(self.conversation.render()),
            Command::Unknown(name) => CommandReply::Unknown(name),
        }
    }

    /// Deals with a line typed at the prompt: an empty line is ignored, a
    /// directive is carried out, anything else is a question.
    pub fn handle_line(&mut self, line: &str) -> (r: LineOutcome)
        ensures
            final(self).options() == old(self).options(),
            line@.len() == 0 ==> r is Ignore && final(self)@ == old(self)@,
            line@.len() > 0 && line@[0] != '\\' ==> (r matches LineOutcome::Prompt(p) && p@
                == line@ && final(self)@ == old(self)@),
            line@.len() > 0 && line@[0] == '\\' ==> (r matches LineOutcome::Reply(reply) && exists|
                c: Command,
            | #[trigger] command_named(c, line@.drop_first()) && command_effect(
                old(self)@,
                c,
                reply,
                final(self)@,
            )),
    {
        match parse_line(line) {
            InputLine::Empty => LineOutcome::Ignore,
            InputLine::Prompt(p) => LineOutcome::Prompt(p),
            InputLine::Command(c) => LineOutcome::Reply(self.run_command(c)),
        }
    }

    /// The address to which requests are sent.
    pub fn completions_url(&self) -> (r: String)
        ensures
            r@ == self.options().api_base_url@ + "/chat/completions"@,
    {
        let mut r = self.options.api_base_url.clone();
        r.append("/chat/completions");
        r
    }

    /// The value of the header that authorises requests.
    pub fn authorization(&self) -> (r: String)
        ensures
            r@ == "Bearer "@ + self.options().api_key@,
    {
        let mut r = String::from_str("Bearer ");
        r.append(self.options.api_key.as_str());
        r
    }
}

/// When the last turn is the user's, a retraction removes just that turn.
proof fn lemma_last_user_retracted(turns: Seq<Turn>)
    requires
        turns.len() > 0,
        turns.last().role == "user"@,
    ensures
        retracted(turns) == Some(turns.drop_last()),
{
    assert(turns.take(turns.len() - 1) =~= turns.drop_last());
}

/// A transport error at any point of a stream fails the exchange, and the
/// conversation it settles to is exactly the one from before its user turn.
pub proof fn lemma_broken_stream_leaves_conversation(
    turns: Seq<Turn>,
    prompt: Seq<char>,
    evs: Seq<StreamEvent>,
    k: int,
)
    requires
        0 <= k < evs.len(),
        evs[k] is TransportError,
        forall|i: int| 0 <= i < k ==> #[trigger] is_payload(evs[i]),
    ensures
        stream_outcome(evs) is Err,
        settle(turns.push(user_turn(prompt)), stream_outcome(evs)) == turns,
{
    let before = evs.take(k);
    assert forall|i: int| 0 <= i < before.len() implies #[trigger] is_payload(before[i]) by {
        assert(before[i] == evs[i]);
    }
    lemma_payload_prefix(before);
    assert(evs.take(k + 1).drop_last() =~= before);
    assert(evs.take(k + 1).last() == evs[k]);
    lemma_end_is_final(evs, k + 1);
    assert(turns.push(user_turn(prompt)).drop_last() =~= turns);
}

} // verus!
