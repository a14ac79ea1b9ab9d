//! The conversation store: the one authoritative transcript, which only
//! grows, and the narrow set of operations that write to it.
//!
//! An operation that returns `Ok` has written to the transcript, one that
//! returns `Err` has changed nothing. The store calls nobody: whoever holds
//! it tells those who show the transcript that it changed, and they read it
//! again with [`Conversation::snapshot`].

use vstd::prelude::*;
use crate::message::{
    extended, frozen, placeholder, user_message, Message, MessageView, Origin,
};

verus! {

/// Names one message of a transcript by its position. A transcript never
/// shrinks or reorders, so a position names the same message for ever.
#[derive(Clone, Copy, Debug, PartialEq, Eq, Structural)]
pub struct MessageRef {
    pub index: usize,
}

/// Why the store refused an operation. A refused operation changes nothing.
#[derive(Clone, Copy, Debug, PartialEq, Eq, Structural)]
pub enum StoreError {
    /// The operation does not fit the state of the pending send.
    InvalidState,
    /// The reference does not name an open assistant message.
    StaleReference,
}

/// The last message is a user message that has no answer slot yet.
pub open spec fn awaiting_slot(t: Seq<MessageView>) -> bool {
    t.len() > 0 && t.last().origin == Origin::User
}

/// The last message is open.
pub open spec fn has_open(t: Seq<MessageView>) -> bool {
    t.len() > 0 && t.last().open
}

/// A send is pending: a prompt was taken in and its answer is not closed.
pub open spec fn pending(t: Seq<MessageView>) -> bool {
    awaiting_slot(t) || has_open(t)
}

/// Position `index` holds an open message.
pub open spec fn targets_open(t: Seq<MessageView>, index: int) -> bool {
    0 <= index < t.len() && t[index].open
}

/// What holds of every transcript the store can hold.
///
/// User and assistant messages alternate, starting with a user message, so
/// each user message is followed by exactly one assistant message as soon as
/// its slot is reserved. A message that is open is an assistant message and
/// the last one, hence at most one message is open.
pub open spec fn well_formed(t: Seq<MessageView>) -> bool {
    &&& forall|i: int|
        0 <= i < t.len() ==> ((#[trigger] t[i]).origin == Origin::User <==> i % 2 == 0)
    &&& forall|i: int|
        0 <= i < t.len() && (#[trigger] t[i]).open ==> i == t.len() - 1 && t[i].origin
            == Origin::Assistant
}

/// The transcript `t` with `fragment` added to the message at `index`.
pub open spec fn extend_at(t: Seq<MessageView>, index: int, fragment: Seq<char>) -> Seq<
    MessageView,
> {
    t.update(index, extended(t[index], fragment))
}

/// The transcript `t` with the message at `index` frozen.
pub open spec fn freeze_at(t: Seq<MessageView>, index: int) -> Seq<MessageView> {
    t.update(index, frozen(t[index]))
}

/// `rows` shows the transcript `t`: the same messages in the same order, each
/// as its origin and its text.
pub open spec fn shows(rows: Seq<(Origin, String)>, t: Seq<MessageView>) -> bool {
    &&& rows.len() == t.len()
    &&& forall|i: int|
        0 <= i < t.len() ==> (#[trigger] rows[i]).0 == t[i].origin && rows[i].1@ == t[i].text
}

/// The transcript of one conversation, in the order in which the messages
/// were added, which is the order in which they are shown.
#[derive(Debug)]
pub struct Conversation {
    messages: Vec<Message>,
}

impl View for Conversation {
    type V = Seq<MessageView>;

    closed spec fn view(&self) -> Seq<MessageView> {
        self.messages@.map_values(|m: Message| m@)
    }
}

impl Clone for Conversation {
    /// A second store with the same transcript.
    fn clone(&self) -> (c: Conversation)
        ensures
            c@ == self@,
    {
        proof {
            use_type_invariant(self);
        }
        let mut messages: Vec<Message> = Vec::new();
        let n = self.messages.len();
        let mut i: usize = 0;
        while i < n
            invariant
                n == self.messages.len(),
                i <= n,
                messages.len() == i,
                forall|k: int| 0 <= k < i ==> (#[trigger] messages[k])@ == self.messages[k]@,
            decreases n - i,
        {
            messages.push(self.messages[i].clone());
            i += 1;
        }
        assert(messages@.map_values(|m: Message| m@) =~= self@);
        Conversation { messages }
    }
}

impl Conversation {
    /// The store's invariant, see [`well_formed`]. It holds of every store
    /// at all times.
    pub open spec fn wf(&self) -> bool {
        well_formed(self@)
    }

    #[verifier::type_invariant]
    closed spec fn inv(self) -> bool {
        self.wf()
    }

    /// An empty transcript.
    pub fn new() -> (c: Conversation)
        ensures
            c.wf(),
            c@ == Seq::<MessageView>::empty(),
    {
        let c = Conversation { messages: Vec::new() };
        c
    }

    /// The number of messages.
    pub fn len(&self) -> (n: usize)
        ensures
            n == self@.len(),
    {
        self.messages.len()
    }

    pub fn is_empty(&self) -> (b: bool)
        ensures
            b == (self@.len() == 0),
    {
        self.messages.len() == 0
    }

    /// The message at `slot`, if there is one.
    pub fn get(&self, slot: MessageRef) -> (m: Option<&Message>)
        ensures
            match m {
                Some(found) => slot.index < self@.len() && found@ == self@[slot.index as int],
                None => slot.index >= self@.len(),
            },
    {
        if slot.index < self.messages.len() {
            Some(&self.messages[slot.index])
        } else {
            None
        }
    }

    /// Whether a send is pending, see [`pending`].
    pub fn has_pending(&self) -> (b: bool)
        ensures
            b == pending(self@),
    {
        let n = self.messages.len();
        if n == 0 {
            false
        } else {
            let last = &self.messages[n - 1];
            match last.origin() {
                Origin::User => true,
                Origin::Assistant => last.is_open(),
            }
        }
    }

    /// The open message, if there is one.
    pub fn open_slot(&self) -> (slot: Option<MessageRef>)
        ensures
            match slot {
                Some(found) => has_open(self@) && found.index == self@.len() - 1,
                None => !has_open(self@),
            },
    {
        let n = self.messages.len();
        if n > 0 && self.messages[n - 1].is_open() {
            Some(MessageRef { index: n - 1 })
        } else {
            None
        }
    }

    /// Adds a user message with the given text at the end and returns its
    /// place. Refused with `InvalidState`, and without any change, while a
    /// send is pending.
    pub fn append_user(&mut self, text: String) -> (r: Result<MessageRef, StoreError>)
        ensures
            final(self).wf(),
            pending(old(self)@) ==> r == Err::<MessageRef, StoreError>(StoreError::InvalidState)
                && final(self)@ == old(self)@,
            !pending(old(self)@) ==> (r matches Ok(place) && place.index == old(self)@.len())
                && final(self)@ == old(self)@.push(user_message(text@)),
    {
        proof {
            use_type_invariant(&*self);
        }
        if self.has_pending() {
            return Err(StoreError::InvalidState);
        }
        // The messages are worked on outside the store and put back at once,
        // so that the store is in order at every point.
        let mut messages = Vec::new();
        std::mem::swap(&mut messages, &mut self.messages);
        let index = messages.len();
        let ghost text_view = text@;
        messages.push(Message::user(text));
        assert(messages@.map_values(|m: Message| m@) =~= old(self)@.push(
            user_message(text_view),
        ));
        self.messages = messages;
        Ok(MessageRef { index })
    }

    /// Adds an empty, open assistant message right after the user message
    /// that was added last, and returns its place. It succeeds whenever that
    /// user message has no slot yet; otherwise it is refused with
    /// `InvalidState`, without any change.
    pub fn append_assistant_placeholder(&mut self) -> (r: Result<MessageRef, StoreError>)
        ensures
            final(self).wf(),
            awaiting_slot(old(self)@) ==> (r matches Ok(place) && place.index == old(self)@.len())
                && final(self)@ == old(self)@.push(placeholder()),
            !awaiting_slot(old(self)@) ==> r == Err::<MessageRef, StoreError>(
                StoreError::InvalidState,
            ) && final(self)@ == old(self)@,
    {
        proof {
            use_type_invariant(&*self);
        }
        let index = self.messages.len();
        if index == 0 {
            return Err(StoreError::InvalidState);
        }
        match self.messages[index - 1].origin() {
            Origin::Assistant => Err(StoreError::InvalidState),
            Origin::User => {
                let mut messages = Vec::new();
                std::mem::swap(&mut messages, &mut self.messages);
                messages.push(Message::placeholder());
                assert(messages@.map_values(|m: Message| m@) =~= old(self)@.push(placeholder()));
                assert(old(self)@[index - 1].origin == Origin::User);
                self.messages = messages;
                Ok(MessageRef { index })
            },
        }
    }

    /// Adds `fragment` at the end of the text of the message at `slot`. This
    /// is the only way in which a message that exists gets new text. Refused
    /// with `StaleReference`, and without any change, unless `slot` names an
    /// open assistant message.
    pub fn extend(&mut self, slot: MessageRef, fragment: &str) -> (r: Result<(), StoreError>)
        ensures
            final(self).wf(),
            targets_open(old(self)@, slot.index as int) ==> r is Ok && final(self)@ == extend_at(
                old(self)@,
                slot.index as int,
                fragment@,
            ),
            !targets_open(old(self)@, slot.index as int) ==> r == Err::<(), StoreError>(
                StoreError::StaleReference,
            ) && final(self)@ == old(self)@,
    {
        proof {
            use_type_invariant(&*self);
        }
        if slot.index >= self.messages.len() || !self.messages[slot.index].is_open() {
            return Err(StoreError::StaleReference);
        }
        let mut messages = Vec::new();
        std::mem::swap(&mut messages, &mut self.messages);
        messages[slot.index].append(fragment);
        assert(messages@.map_values(|m: Message| m@) =~= extend_at(
            old(self)@,
            slot.index as int,
            fragment@,
        ));
        self.messages = messages;
        Ok(())
    }

    /// Closes the message at `slot`: its text is final from now on and the
    /// send that it answered is over. Refused with `StaleReference`, and
    /// without any change, unless `slot` names an open assistant message.
    pub fn freeze(&mut self, slot: MessageRef) -> (r: Result<(), StoreError>)
        ensures
            final(self).wf(),
            targets_open(old(self)@, slot.index as int) ==> r is Ok && final(self)@ == freeze_at(
                old(self)@,
                slot.index as int,
            ),
            !targets_open(old(self)@, slot.index as int) ==> r == Err::<(), StoreError>(
                StoreError::StaleReference,
            ) && final(self)@ == old(self)@,
    {
        proof {
            use_type_invariant(&*self);
        }
        if slot.index >= self.messages.len() || !self.messages[slot.index].is_open() {
            return Err(StoreError::StaleReference);
        }
        let mut messages = Vec::new();
        std::mem::swap(&mut messages, &mut self.messages);
        messages[slot.index].freeze();
        assert(messages@.map_values(|m: Message| m@) =~= freeze_at(old(self)@, slot.index as int));
        self.messages = messages;
        Ok(())
    }

    /// The whole transcript as it is now: for each message, in order, its
    /// origin and its text. The store itself is left as it is.
    pub fn snapshot(&self) -> (rows: Vec<(Origin, String)>)
        ensures
            shows(rows@, self@),
    {
        let mut rows: Vec<(Origin, String)> = Vec::new();
        let n = self.messages.len();
        let mut i: usize = 0;
        while i < n
            invariant
                n == self.messages.len(),
                i <= n,
                rows.len() == i,
                forall|k: int|
                    0 <= k < i ==> (#[trigger] rows[k]).0 == self@[k].origin && rows[k].1@
                        == self@[k].text,
            decreases n - i,
        {
            let m = &self.messages[i];
            rows.push((m.origin(), m.text().to_owned()));
            i += 1;
        }
        rows
    }
}

} // verus!
