use vstd::prelude::*;

use crate::error::{ChatError, ErrorView};
use crate::model::{Message, ResponseStreamMessage, Turn};
use crate::text::{strip_leading_newline, text_is, without_leading_newline};

verus! {

/// One event of a streamed answer, as the transport delivered it.
#[derive(Debug)]
pub enum StreamEvent {
    /// The stream was opened; it carries nothing.
    Open,
    /// The payload was the end marker.
    Done,
    /// The payload, decoded.
    Chunk(ResponseStreamMessage),
    /// The payload could not be decoded; why.
    Malformed(String),
    /// The transport failed; the cause.
    TransportError(String),
}

/// Whether an event's payload is the marker that ends a stream.
pub fn is_done_marker(data: &str) -> (r: bool)
    ensures
        r == (data@ == "[DONE]"@),
{
    text_is(data, "[DONE]")
}

/// The characters of an optional string.
pub open spec fn text_of(o: Option<String>) -> Option<Seq<char>> {
    match o {
        Some(s) => Some(s@),
        None => None,
    }
}

/// Where a reducer stands.
#[derive(Debug)]
pub enum StreamStatus {
    Streaming,
    Completed,
    Failed(ChatError),
}

/// Where a reducer stands, as the contracts see it.
pub enum StatusView {
    Streaming,
    Completed,
    Failed(ErrorView),
}

/// A reducer as the contracts see it.
pub struct ReducerView {
    /// The role fragments, concatenated.
    pub role: Seq<char>,
    /// Whether any event supplied a role.
    pub role_given: bool,
    /// The text accumulated so far.
    pub content: Seq<char>,
    /// Whether any text at all has been offered yet.
    pub started: bool,
    pub status: StatusView,
}

pub open spec fn initial_reducer() -> ReducerView {
    ReducerView {
        role: Seq::empty(),
        role_given: false,
        content: Seq::empty(),
        started: false,
        status: StatusView::Streaming,
    }
}

/// What a fragment adds to the text: a newline that would be the very first
/// character of the message is dropped, nothing else.
pub open spec fn piece(started: bool, c: Seq<char>) -> Seq<char> {
    if started {
        c
    } else {
        without_leading_newline(c)
    }
}

/// The detail given when a stream event holds no choice.
pub open spec fn no_choice_detail() -> Seq<char> {
    "event without a choice"@
}

/// The effect of one event on a reducer.
pub open spec fn step_view(s: ReducerView, ev: StreamEvent) -> ReducerView {
    if !(s.status is Streaming) {
        s
    } else {
        match ev {
            StreamEvent::Open => s,
            StreamEvent::Done => ReducerView { status: StatusView::Completed, ..s },
            StreamEvent::Malformed(w) => ReducerView {
                status: StatusView::Failed(ErrorView::MalformedResponse(w@)),
                ..s
            },
            StreamEvent::TransportError(c) => ReducerView {
                status: StatusView::Failed(ErrorView::StreamTransportError(c@)),
                ..s
            },
            StreamEvent::Chunk(m) => if m.choices@.len() == 0 {
                ReducerView {
                    status: StatusView::Failed(ErrorView::MalformedResponse(no_choice_detail())),
                    ..s
                }
            } else {
                let d = m.choices@[0].delta;
                let s1 = match d.role {
                    Some(r) => ReducerView { role: s.role + r@, role_given: true, ..s },
                    None => s,
                };
                match d.content {
                    Some(c) => ReducerView {
                        content: s1.content + piece(s1.started, c@),
                        started: s1.started || c@.len() > 0,
                        ..s1
                    },
                    None => s1,
                }
            },
        }
    }
}

/// The reducer after a whole sequence of events, taken in order.
pub open spec fn fold_events(evs: Seq<StreamEvent>) -> ReducerView
    decreases evs.len(),
{
    if evs.len() == 0 {
        initial_reducer()
    } else {
        step_view(fold_events(evs.drop_last()), evs.last())
    }
}

/// The turn a reducer yields, or the error it failed with.
pub open spec fn finish_view(s: ReducerView) -> Result<Turn, ErrorView> {
    match s.status {
        StatusView::Failed(e) => Err(e),
        _ => Ok(
            Turn {
                role: if s.role_given {
                    s.role
                } else {
                    "assistant"@
                },
                content: s.content,
            },
        ),
    }
}

/// What a whole stream yields.
pub open spec fn stream_outcome(evs: Seq<StreamEvent>) -> Result<Turn, ErrorView> {
    finish_view(fold_events(evs))
}

/// A result of the library as the contracts see it.
pub open spec fn outcome_view(r: Result<Message, ChatError>) -> Result<Turn, ErrorView> {
    match r {
        Ok(m) => Ok(m@),
        Err(e) => Err(e@),
    }
}

/// What should be shown of one event: the role it supplied, the text it
/// added, and whether it ended the stream.
#[derive(Debug)]
pub struct Echo {
    pub role: Option<String>,
    pub text: Option<String>,
    pub finished: bool,
}

/// The echo that an event gives on a reducer.
pub open spec fn echo_of(s: ReducerView, ev: StreamEvent, e: Echo) -> bool {
    &&& e.finished == (s.status is Streaming && ev is Done)
    &&& if s.status is Streaming && ev is Chunk && ev->Chunk_0.choices@.len() > 0 {
        let d = ev->Chunk_0.choices@[0].delta;
        &&& text_of(e.role) == text_of(d.role)
        &&& text_of(e.text) == match d.content {
            Some(c) => Some(piece(s.started, c@)),
            None => None,
        }
    } else {
        e.role is None && e.text is None
    }
}

/// Folds the events of one streamed answer into a single turn.
#[derive(Debug)]
pub struct StreamReducer {
    role: String,
    role_given: bool,
    content: String,
    started: bool,
    status: StreamStatus,
}

impl View for StreamReducer {
    type V = ReducerView;

    closed spec fn view(&self) -> ReducerView {
        ReducerView {
            role: self.role@,
            role_given: self.role_given,
            content: self.content@,
            started: self.started,
            status: match self.status {
                StreamStatus::Streaming => StatusView::Streaming,
                StreamStatus::Completed => StatusView::Completed,
                StreamStatus::Failed(e) => StatusView::Failed(e@),
            },
        }
    }
}

impl StreamReducer {
    /// A reducer that has seen no event.
    pub fn new() -> (r: StreamReducer)
        ensures
            r@ == initial_reducer(),
    {
        StreamReducer {
            role: String::new(),
            role_given: false,
            content: String::new(),
            started: false,
            status: StreamStatus::Streaming,
        }
    }

    /// Whether the stream has ended, well or badly.
    pub fn is_finished(&self) -> (r: bool)
        ensures
            r == !(self@.status is Streaming),
    {
        match self.status {
            StreamStatus::Streaming => false,
            _ => true,
        }
    }

    /// Takes one event into account.
    pub fn step(&mut self, ev: StreamEvent) -> (e: Echo)
        ensures
            final(self)@ == step_view(old(self)@, ev),
            echo_of(old(self)@, ev, e),
    {
        let quiet = Echo { role: None, text: None, finished: false };
        if self.is_finished() {
            return quiet;
        }
        match ev {
            StreamEvent::Open => quiet,
            StreamEvent::Done => {
                self.status = StreamStatus::Completed;
                Echo { role: None, text: None, finished: true }
            },
            StreamEvent::Malformed(w) => {
                self.status = StreamStatus::Failed(ChatError::MalformedResponse(w));
                quiet
            },
            StreamEvent::TransportError(c) => {
                self.status = StreamStatus::Failed(ChatError::StreamTransportError(c));
                quiet
            },
            StreamEvent::Chunk(m) => {
                let mut choices = m.choices;
                if choices.len() == 0 {
                    self.status = StreamStatus::Failed(
                        ChatError::MalformedResponse(String::from_str("event without a choice")),
                    );
                    return quiet;
                }
                let first = choices.swap_remove(0);
                let delta = first.delta;
                let role = match delta.role {
                    Some(r) => {
                        self.role.append(r.as_str());
                        self.role_given = true;
                        Some(r)
                    },
                    None => None,
                };
                let text = match delta.content {
                    Some(c) => {
                        let p = if self.started {
                            c
                        } else {
                            self.started = !c.as_str().is_empty();
                            strip_leading_newline(c.as_str())
                        };
                        self.content.append(p.as_str());
                        Some(p)
                    },
                    None => None,
                };
                Echo { role, text, finished: false }
            },
        }
    }

    /// The turn accumulated so far, or the error the stream failed with.
    pub fn finish(self) -> (r: Result<Message, ChatError>)
        ensures
            outcome_view(r) == finish_view(self@),
    {
        match self.status {
            StreamStatus::Failed(e) => Err(e),
            _ => {
                let role = if self.role_given {
                    self.role
                } else {
                    String::from_str("assistant")
                };
                Ok(Message { role, content: self.content })
            },
        }
    }
}

/// Folds a whole sequence of events into the turn it yields.
pub fn reduce_stream(events: Vec<StreamEvent>) -> (r: Result<Message, ChatError>)
    ensures
        outcome_view(r) == stream_outcome(events@),
{
    let ghost evs = events@;
    let mut reducer = StreamReducer::new();
    for ev in it: events
        invariant
            it.seq() == evs,
            reducer@ == fold_events(evs.take(it.index() as int)),
    {
        proof {
            let i = it.index() as int;
            assert(evs.take(i + 1).drop_last() =~= evs.take(i));
        }
        reducer.step(ev);
    }
    assert(evs.take(evs.len() as int) =~= evs);
    reducer.finish()
}

/// The text that one event offers.
pub open spec fn event_text(ev: StreamEvent) -> Seq<char> {
    match ev {
        StreamEvent::Chunk(m) => if m.choices@.len() > 0 {
            match m.choices@[0].delta.content {
                Some(c) => c@,
                None => Seq::empty(),
            }
        } else {
            Seq::empty()
        },
        _ => Seq::empty(),
    }
}

/// The texts of all events, concatenated in arrival order.
pub open spec fn fragments(evs: Seq<StreamEvent>) -> Seq<char>
    decreases evs.len(),
{
    if evs.len() == 0 {
        Seq::empty()
    } else {
        fragments(evs.drop_last()) + event_text(evs.last())
    }
}

/// An event that neither ends nor breaks a stream.
pub open spec fn is_payload(ev: StreamEvent) -> bool {
    ev is Open || (ev is Chunk && ev->Chunk_0.choices@.len() > 0)
}

/// While only payload arrives, the reducer keeps streaming and holds the
/// concatenated texts without a newline that would open the message.
pub proof fn lemma_payload_prefix(evs: Seq<StreamEvent>)
    requires
        forall|i: int| 0 <= i < evs.len() ==> #[trigger] is_payload(evs[i]),
    ensures
        fold_events(evs).status is Streaming,
        fold_events(evs).content == without_leading_newline(fragments(evs)),
        fold_events(evs).started == (fragments(evs).len() > 0),
    decreases evs.len(),
{
    if evs.len() > 0 {
        let prefix = evs.drop_last();
        assert forall|i: int| 0 <= i < prefix.len() implies #[trigger] is_payload(prefix[i]) by {
            assert(prefix[i] == evs[i]);
        }
        lemma_payload_prefix(prefix);
        assert(is_payload(evs[evs.len() - 1]));
        let f = fragments(prefix);
        let t = event_text(evs.last());
        assert(fragments(evs) == f + t);
        if f.len() > 0 {
            assert((f + t)[0] == f[0]);
            if f[0] == '\n' {
                assert((f + t).drop_first() =~= f.drop_first() + t);
            }
        } else {
            assert(f + t =~= t);
        }
    }
}

/// For a stream of payload that ends with the end marker, the text of the
/// turn is the concatenation of all fragments in arrival order, with a
/// leading newline removed exactly when it is the very first character
/// offered; nothing but that one character is ever removed.
pub proof fn lemma_stream_text(evs: Seq<StreamEvent>)
    requires
        evs.len() > 0,
        evs.last() is Done,
        forall|i: int| 0 <= i < evs.len() - 1 ==> #[trigger] is_payload(evs[i]),
    ensures
        stream_outcome(evs) is Ok,
        stream_outcome(evs)->Ok_0.content == without_leading_newline(fragments(evs)),
        fragments(evs) == stream_outcome(evs)->Ok_0.content || fragments(evs) == seq!['\n']
            + stream_outcome(evs)->Ok_0.content,
{
    let prefix = evs.drop_last();
    assert forall|i: int| 0 <= i < prefix.len() implies #[trigger] is_payload(prefix[i]) by {
        assert(prefix[i] == evs[i]);
    }
    lemma_payload_prefix(prefix);
    assert(fragments(evs) =~= fragments(prefix));
    let f = fragments(prefix);
    if f.len() > 0 && f[0] == '\n' {
        assert(f =~= seq!['\n'] + f.drop_first());
    }
}

/// A fragment that arrives once any text has been offered is appended whole:
/// a newline that begins it is kept.
pub proof fn lemma_later_fragment_kept(evs: Seq<StreamEvent>, ev: StreamEvent)
    requires
        forall|i: int| 0 <= i < evs.len() ==> #[trigger] is_payload(evs[i]),
        fragments(evs).len() > 0,
        is_payload(ev),
    ensures
        fold_events(evs.push(ev)).content == fold_events(evs).content + event_text(ev),
{
    lemma_payload_prefix(evs);
    assert(evs.push(ev).drop_last() =~= evs);
}

/// Once a stream has ended or failed, later events change nothing.
pub proof fn lemma_end_is_final(evs: Seq<StreamEvent>, n: int)
    requires
        0 <= n <= evs.len(),
        !(fold_events(evs.take(n)).status is Streaming),
    ensures
        fold_events(evs) == fold_events(evs.take(n)),
    decreases evs.len() - n,
{
    if n == evs.len() {
        assert(evs.take(n) =~= evs);
    } else {
        assert(evs.take(n + 1).drop_last() =~= evs.take(n));
        assert(evs.take(n + 1).last() == evs[n]);
        lemma_end_is_final(evs, n + 1);
    }
}

} // verus!
