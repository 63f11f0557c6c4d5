use vstd::prelude::*;

use crate::error::{ChatError, ErrorView};
use crate::model::{Message, Turn};
use crate::text::text_is;

verus! {

/// The position of the most recent turn whose role is "user", if any.
pub open spec fn last_user_turn(turns: Seq<Turn>) -> Option<int>
    decreases turns.len(),
{
    if turns.len() == 0 {
        None
    } else if turns.last().role == "user"@ {
        Some(turns.len() - 1)
    } else {
        last_user_turn(turns.drop_last())
    }
}

/// What a retraction leaves: everything before the most recent user turn,
/// or nothing when there is no user turn to take back.
pub open spec fn retracted(turns: Seq<Turn>) -> Option<Seq<Turn>> {
    match last_user_turn(turns) {
        Some(i) => Some(turns.take(i)),
        None => None,
    }
}

/// Whether a system turn, if there is one, stands first and alone.
pub open spec fn system_first(turns: Seq<Turn>) -> bool {
    forall|i: int| 0 < i < turns.len() ==> #[trigger] turns[i].role != "system"@
}

/// One entry of the history as it is shown: position, role and text.
#[derive(Debug)]
pub struct HistoryEntry {
    pub index: usize,
    pub role: String,
    pub content: String,
}

/// The ordered turns of one conversation.
#[derive(Debug)]
pub struct Conversation {
    messages: Vec<Message>,
}

impl View for Conversation {
    type V = Seq<Turn>;

    closed spec fn view(&self) -> Seq<Turn> {
        self.messages@.map_values(|m: Message| m@)
    }
}

impl Conversation {
    /// An empty conversation.
    pub fn new() -> (r: Conversation)
        ensures
            r@ == Seq::<Turn>::empty(),
    {
        let r = Conversation { messages: Vec::new() };
        assert(r@ =~= Seq::<Turn>::empty());
        r
    }

    /// The number of turns.
    pub fn len(&self) -> (r: usize)
        ensures
            r == self@.len(),
    {
        self.messages.len()
    }

    /// Whether the last turn is the user's.
    pub fn last_is_user(&self) -> (r: bool)
        ensures
            r == (self@.len() > 0 && self@.last().role == "user"@),
    {
        let n = self.messages.len();
        n > 0 && text_is(self.messages[n - 1].role.as_str(), "user")
    }

    /// Appends a turn at the end.
    pub fn push(&mut self, m: Message)
        ensures
            final(self)@ == old(self)@.push(m@),
            system_first(old(self)@) && m@.role != "system"@ ==> system_first(final(self)@),
    {
        self.messages.push(m);
        assert(self@ =~= old(self)@.push(m@));
    }

    /// Takes back the most recent user turn and every turn after it.
    pub fn retract(&mut self) -> (r: Result<(), ChatError>)
        ensures
            match retracted(old(self)@) {
                Some(rest) => r is Ok && final(self)@ == rest,
                None => r matches Err(e) && e@ == ErrorView::NoMessageToRetract
                    && final(self)@ == old(self)@,
            },
            old(self)@.len() == 0 || (old(self)@.len() == 1 && old(self)@[0].role == "system"@)
                ==> r is Err && final(self)@ == old(self)@,
    {
        let ghost turns = self@;
        proof {
            if turns.len() == 0 || (turns.len() == 1 && turns[0].role == "system"@) {
                lemma_retract_without_user_turn(turns);
            }
        }
        assert(turns.take(turns.len() as int) =~= turns);
        let mut i: usize = self.messages.len();
        while i > 0
            invariant
                i <= self.messages.len(),
                turns == self@,
                turns == old(self)@,
                turns.len() == 0 || (turns.len() == 1 && turns[0].role == "system"@) ==> retracted(
                    turns,
                ) is None,
                last_user_turn(turns) == last_user_turn(turns.take(i as int)),
            decreases i,
        {
            assert(turns.take(i as int).last() == self.messages@[i - 1]@);
            if text_is(self.messages[i - 1].role.as_str(), "user") {
                assert(last_user_turn(turns.take(i as int)) == Some(i - 1));
                self.messages.truncate(i - 1);
                assert(self@ =~= turns.take(i - 1));
                return Ok(());
            }
            assert(turns.take(i as int).drop_last() =~= turns.take(i - 1));
            i = i - 1;
        }
        assert(turns.take(0) =~= Seq::<Turn>::empty());
        Err(ChatError::NoMessageToRetract)
    }

    /// A copy of every turn, in conversation order.
    pub fn snapshot(&self) -> (r: Vec<Message>)
        ensures
            r@.map_values(|m: Message| m@) == self@,
    {
        let mut r: Vec<Message> = Vec::new();
        let mut i: usize = 0;
        while i < self.messages.len()
            invariant
                i <= self.messages.len(),
                r@.len() == i,
                forall|j: int| 0 <= j < i ==> #[trigger] r@[j]@ == self.messages@[j]@,
            decreases self.messages.len() - i,
        {
            let m = Message::clone(&self.messages[i]);
            r.push(m);
            i = i + 1;
        }
        assert(r@.map_values(|m: Message| m@) =~= self@);
        r
    }

    /// Every turn with its position, for display.
    pub fn render(&self) -> (r: Vec<HistoryEntry>)
        ensures
            r@.len() == self@.len(),
            forall|i: int|
                #![trigger r@[i]]
                0 <= i < r@.len() ==> r@[i].index == i && r@[i].role@ == self@[i].role
                    && r@[i].content@ == self@[i].content,
    {
        let mut r: Vec<HistoryEntry> = Vec::new();
        let mut i: usize = 0;
        while i < self.messages.len()
            invariant
                i <= self.messages.len(),
                r@.len() == i,
                forall|j: int|
                    #![trigger r@[j]]
                    0 <= j < i ==> r@[j].index == j && r@[j].role@ == self@[j].role
                        && r@[j].content@ == self@[j].content,
            decreases self.messages.len() - i,
        {
            let m = &self.messages[i];
            r.push(
                HistoryEntry { index: i, role: m.role.clone(), content: m.content.clone() },
            );
            i = i + 1;
        }
        r
    }
}

/// A retraction right after a user turn and the reply that followed it
/// gives back the conversation as it was before that user turn.
pub proof fn lemma_retract_undoes_exchange(turns: Seq<Turn>, user: Turn, reply: Turn)
    requires
        user.role == "user"@,
        reply.role != "user"@,
    ensures
        retracted(turns.push(user).push(reply)) == Some(turns),
{
    let s = turns.push(user).push(reply);
    assert(s.last() == reply);
    assert(s.drop_last() =~= turns.push(user));
    assert(last_user_turn(turns.push(user)) == Some(turns.len() as int));
    assert(last_user_turn(s) == Some(turns.len() as int));
    assert(s.take(turns.len() as int) =~= turns);
}

/// A conversation without user turns cannot be retracted, and a failed
/// retraction changes nothing: a conversation that is empty or holds only
/// its system turn stays as it is.
pub proof fn lemma_retract_without_user_turn(turns: Seq<Turn>)
    requires
        turns.len() == 0 || (turns.len() == 1 && turns[0].role == "system"@),
    ensures
        retracted(turns) is None,
{
    if turns.len() == 1 {
        assert(last_user_turn(turns.drop_last()) is None);
        assert(turns.last() == turns[0]);
        assert("system"@ != "user"@) by {
            reveal_strlit("system");
            reveal_strlit("user");
            assert("system"@.len() != "user"@.len());
        }
    }
}

} // verus!
