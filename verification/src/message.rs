//! One utterance of the transcript and its mathematical model.

use vstd::prelude::*;
use vstd::string::*;

verus! {

/// The participant that produced a message.
#[derive(Clone, Copy, Debug, PartialEq, Eq, Structural)]
pub enum Origin {
    User,
    Assistant,
}

/// What a message is, as a mathematical value.
pub struct MessageView {
    pub origin: Origin,
    pub text: Seq<char>,
    /// Whether the message may still receive text. A message that is not
    /// open is frozen: its text never changes again.
    pub open: bool,
}

/// The message that a user's `text` enters the transcript as: complete from
/// the start.
pub open spec fn user_message(text: Seq<char>) -> MessageView {
    MessageView { origin: Origin::User, text, open: false }
}

/// The empty, open assistant message that reserves the place of an answer.
pub open spec fn placeholder() -> MessageView {
    MessageView { origin: Origin::Assistant, text: Seq::<char>::empty(), open: true }
}

/// `m` with `fragment` added at the end of its text.
pub open spec fn extended(m: MessageView, fragment: Seq<char>) -> MessageView {
    MessageView { text: m.text + fragment, ..m }
}

/// `m`, closed for good.
pub open spec fn frozen(m: MessageView) -> MessageView {
    MessageView { open: false, ..m }
}

/// One utterance of the transcript. Its text is only ever added to, and only
/// while the message is open.
#[derive(Debug)]
pub struct Message {
    text: String,
    origin: Origin,
    open: bool,
}

impl View for Message {
    type V = MessageView;

    closed spec fn view(&self) -> MessageView {
        MessageView { origin: self.origin, text: self.text@, open: self.open }
    }
}

impl Clone for Message {
    /// A second message with the same origin, text and state.
    fn clone(&self) -> (m: Message)
        ensures
            m@ == self@,
    {
        Message { text: self.text.clone(), origin: self.origin, open: self.open }
    }
}

impl Message {
    /// A user's message. It is frozen from creation.
    pub fn user(text: String) -> (m: Message)
        ensures
            m@ == user_message(text@),
    {
        Message { text, origin: Origin::User, open: false }
    }

    /// An empty assistant message that is open for text.
    pub fn placeholder() -> (m: Message)
        ensures
            m@ == placeholder(),
    {
        Message { text: String::new(), origin: Origin::Assistant, open: true }
    }

    pub fn origin(&self) -> (o: Origin)
        ensures
            o == self@.origin,
    {
        self.origin
    }

    pub fn text(&self) -> (t: &str)
        ensures
            t@ == self@.text,
    {
        self.text.as_str()
    }

    pub fn is_open(&self) -> (b: bool)
        ensures
            b == self@.open,
    {
        self.open
    }

    /// Adds `fragment` at the end of the text if the message is open, and
    /// says whether it did. A frozen message is left as it is.
    pub fn append(&mut self, fragment: &str) -> (appended: bool)
        ensures
            appended == old(self)@.open,
            old(self)@.open ==> final(self)@ == extended(old(self)@, fragment@),
            !old(self)@.open ==> final(self)@ == old(self)@,
    {
        if self.open {
            self.text.append(fragment);
            true
        } else {
            false
        }
    }

    /// Closes the message: from now on its text stays as it is. Freezing a
    /// frozen message changes nothing.
    pub fn freeze(&mut self)
        ensures
            final(self)@ == frozen(old(self)@),
    {
        self.open = false;
    }
}

} // verus!
