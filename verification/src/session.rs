//! The session state machine: whether a prompt may be sent, where the
//! answer goes, and when the answer is over.
//!
//! The session is the only writer of its transcript. It takes one send at a
//! time: a second prompt while an answer is still open is refused, never
//! queued and never put in the place of the first.

use vstd::prelude::*;
use crate::channel::{StreamItem, StreamItemView};
use crate::conversation::{
    awaiting_slot, extend_at, freeze_at, has_open, shows, well_formed, Conversation, MessageRef,
    StoreError,
};
use crate::message::{placeholder, user_message, MessageView, Origin};

verus! {

/// Where the session stands with its one send.
#[derive(Clone, Copy, Debug, PartialEq, Eq, Structural)]
pub enum Phase {
    /// No send is pending: a prompt may be submitted.
    Idle,
    /// A prompt was taken in and its slot reserved; the backend has not
    /// answered yet.
    Sending,
    /// The answer is arriving.
    Streaming,
}

/// What a session is, as a mathematical value.
pub struct SessionView {
    pub phase: Phase,
    pub transcript: Seq<MessageView>,
}

/// What can happen to a session.
pub enum Event {
    /// The user submits a prompt with this text.
    Submit(Seq<char>),
    /// The backend has the prompt.
    Acknowledged,
    /// The answer stream delivers an item.
    Item(StreamItemView),
    /// The caller abandons the pending send.
    Reset,
}

/// A session at its start: idle, with an empty transcript.
pub open spec fn initial() -> SessionView {
    SessionView { phase: Phase::Idle, transcript: Seq::<MessageView>::empty() }
}

/// What holds of every session: the transcript is well formed, every user
/// message has its answer slot, and an answer is open exactly while a send
/// is pending.
pub open spec fn consistent(s: SessionView) -> bool {
    &&& well_formed(s.transcript)
    &&& !awaiting_slot(s.transcript)
    &&& (s.phase == Phase::Idle <==> !has_open(s.transcript))
}

/// The session takes the event. A prompt is taken only when idle, an
/// acknowledgement only while sending, an item of the answer only while a
/// send is pending.
pub open spec fn accepts(s: SessionView, e: Event) -> bool {
    match e {
        Event::Submit(_) => s.phase == Phase::Idle,
        Event::Acknowledged => s.phase == Phase::Sending,
        Event::Item(_) => s.phase != Phase::Idle,
        Event::Reset => true,
    }
}

/// The transcript with its last message frozen.
pub open spec fn close_last(t: Seq<MessageView>) -> Seq<MessageView> {
    freeze_at(t, t.len() - 1)
}

/// The session after an event. An event that is not taken changes nothing.
///
/// A prompt adds the user's message and, right behind it, the empty slot of
/// the answer. A fragment goes to the end of that slot, and shows that the
/// backend has the prompt. Either marker of the stream's end, or a reset,
/// freezes the slot with the text it has and makes the session idle again.
pub open spec fn step(s: SessionView, e: Event) -> SessionView {
    if !accepts(s, e) {
        s
    } else {
        match e {
            Event::Submit(text) => SessionView {
                phase: Phase::Sending,
                transcript: s.transcript.push(user_message(text)).push(placeholder()),
            },
            Event::Acknowledged => SessionView { phase: Phase::Streaming, ..s },
            Event::Item(StreamItemView::Fragment(fragment)) => SessionView {
                phase: Phase::Streaming,
                transcript: extend_at(s.transcript, s.transcript.len() - 1, fragment),
            },
            Event::Item(_) => SessionView {
                phase: Phase::Idle,
                transcript: close_last(s.transcript),
            },
            Event::Reset => if s.phase == Phase::Idle {
                s
            } else {
                SessionView { phase: Phase::Idle, transcript: close_last(s.transcript) }
            },
        }
    }
}

/// The session after a run of events, taken in order.
pub open spec fn run(s: SessionView, events: Seq<Event>) -> SessionView
    decreases events.len(),
{
    if events.len() == 0 {
        s
    } else {
        step(run(s, events.drop_last()), events.last())
    }
}

/// The send that is under way: the prompt, and the place of the message
/// that takes the answer.
#[derive(Clone, Debug, PartialEq, Eq)]
pub struct PendingSend {
    pub prompt: String,
    pub slot: MessageRef,
}

/// What an item of the answer stream did to the pending send.
#[derive(Clone, Copy, Debug, PartialEq, Eq, Structural)]
pub enum Delivery {
    /// A fragment was added to the answer.
    Extended,
    /// The answer is complete.
    Completed,
    /// The answer broke off and stays as far as it got.
    Truncated,
}

/// What a taken item reports, see [`Delivery`].
pub open spec fn delivery_of(item: StreamItemView) -> Delivery {
    match item {
        StreamItemView::Fragment(_) => Delivery::Extended,
        StreamItemView::StreamEnd => Delivery::Completed,
        StreamItemView::StreamError => Delivery::Truncated,
    }
}

/// One chat session: a transcript and the state of its one send.
#[derive(Debug)]
pub struct Session {
    conversation: Conversation,
    /// Whether the backend has the prompt of the pending send. It says
    /// nothing while no send is pending.
    acknowledged: bool,
}

impl View for Session {
    type V = SessionView;

    closed spec fn view(&self) -> SessionView {
        SessionView {
            phase: if !has_open(self.conversation@) {
                Phase::Idle
            } else if self.acknowledged {
                Phase::Streaming
            } else {
                Phase::Sending
            },
            transcript: self.conversation@,
        }
    }
}

impl Clone for Session {
    /// A second session in the same state.
    fn clone(&self) -> (s: Session)
        ensures
            s@ == self@,
    {
        proof {
            use_type_invariant(self);
        }
        Session { conversation: self.conversation.clone(), acknowledged: self.acknowledged }
    }
}

impl Session {
    /// The session's invariant, see [`consistent`]. It holds of every
    /// session at all times.
    pub open spec fn wf(&self) -> bool {
        consistent(self@)
    }

    #[verifier::type_invariant]
    closed spec fn inv(self) -> bool {
        self.wf()
    }

    /// A session at its start.
    pub fn new() -> (s: Session)
        ensures
            s.wf(),
            s@ == initial(),
    {
        Session { conversation: Conversation::new(), acknowledged: false }
    }

    pub fn phase(&self) -> (p: Phase)
        ensures
            p == self@.phase,
    {
        match self.conversation.open_slot() {
            None => Phase::Idle,
            Some(_) => if self.acknowledged {
                Phase::Streaming
            } else {
                Phase::Sending
            },
        }
    }

    /// Whether a prompt may be submitted now.
    pub fn is_idle(&self) -> (b: bool)
        ensures
            b == (self@.phase == Phase::Idle),
    {
        self.conversation.open_slot().is_none()
    }

    /// The transcript, to read.
    pub fn conversation(&self) -> (c: &Conversation)
        ensures
            c@ == self@.transcript,
    {
        &self.conversation
    }

    /// The whole transcript as it is now, see [`Conversation::snapshot`].
    /// Reading leaves the session as it is, so two snapshots with no taken
    /// event between them show the same transcript.
    pub fn snapshot(&self) -> (rows: Vec<(Origin, String)>)
        ensures
            shows(rows@, self@.transcript),
    {
        self.conversation.snapshot()
    }

    /// The send that is under way, if there is one.
    pub fn pending(&self) -> (p: Option<PendingSend>)
        ensures
            match p {
                Some(send) => {
                    &&& self@.phase != Phase::Idle
                    &&& send.slot.index == self@.transcript.len() - 1
                    &&& send.prompt@ == self@.transcript[self@.transcript.len() - 2].text
                },
                None => self@.phase == Phase::Idle,
            },
    {
        proof {
            use_type_invariant(self);
        }
        match self.conversation.open_slot() {
            None => None,
            Some(slot) => {
                match self.conversation.get(MessageRef { index: slot.index - 1 }) {
                    Some(message) => Some(PendingSend { prompt: message.text().to_owned(), slot }),
                    None => None,
                }
            },
        }
    }

    /// Takes a prompt from the user. When the session is idle, the user's
    /// message and the empty slot of the answer are added to the transcript,
    /// the session is `Sending`, and the send to carry out is returned. In
    /// any other phase the prompt is refused with `InvalidState` and nothing
    /// changes.
    pub fn submit(&mut self, text: String) -> (r: Result<PendingSend, StoreError>)
        ensures
            final(self).wf(),
            final(self)@ == step(old(self)@, Event::Submit(text@)),
            old(self)@.phase != Phase::Idle ==> r == Err::<PendingSend, StoreError>(
                StoreError::InvalidState,
            ) && final(self)@ == old(self)@,
            old(self)@.phase == Phase::Idle ==> r is Ok && r->Ok_0.prompt@ == text@
                && r->Ok_0.slot.index == old(self)@.transcript.len() + 1,
    {
        proof {
            use_type_invariant(&*self);
        }
        if !self.is_idle() {
            return Err(StoreError::InvalidState);
        }
        let prompt = text.clone();
        // The transcript is written outside the session and put back when
        // both messages are in it, so that the session is in order at every
        // point.
        let mut conversation = Conversation::new();
        std::mem::swap(&mut conversation, &mut self.conversation);
        let added = match conversation.append_user(text) {
            Err(e) => Err(e),
            Ok(_) => conversation.append_assistant_placeholder(),
        };
        self.conversation = conversation;
        self.acknowledged = false;
        match added {
            Err(e) => Err(e),
            Ok(slot) => Ok(PendingSend { prompt, slot }),
        }
    }

    /// Notes that the backend has the prompt: a session that is `Sending`
    /// is `Streaming` from now on. In any other phase the report is refused
    /// with `InvalidState` and nothing changes.
    pub fn acknowledge(&mut self) -> (r: Result<(), StoreError>)
        ensures
            final(self).wf(),
            final(self)@ == step(old(self)@, Event::Acknowledged),
            old(self)@.phase == Phase::Sending ==> r is Ok,
            old(self)@.phase != Phase::Sending ==> r == Err::<(), StoreError>(
                StoreError::InvalidState,
            ) && final(self)@ == old(self)@,
    {
        proof {
            use_type_invariant(&*self);
        }
        match self.phase() {
            Phase::Sending => {
                self.acknowledged = true;
                Ok(())
            },
            _ => Err(StoreError::InvalidState),
        }
    }

    /// Takes one item of the answer stream. While a send is pending, a
    /// fragment is added to the end of the answer, word for word, and either
    /// marker freezes the answer as it stands and makes the session idle.
    /// When no send is pending there is no message the item could belong to:
    /// it is refused with `StaleReference` and nothing changes.
    pub fn deliver(&mut self, item: StreamItem) -> (r: Result<Delivery, StoreError>)
        ensures
            final(self).wf(),
            final(self)@ == step(old(self)@, Event::Item(item@)),
            old(self)@.phase != Phase::Idle ==> r == Ok::<Delivery, StoreError>(
                delivery_of(item@),
            ),
            old(self)@.phase == Phase::Idle ==> r == Err::<Delivery, StoreError>(
                StoreError::StaleReference,
            ) && final(self)@ == old(self)@,
    {
        proof {
            use_type_invariant(&*self);
        }
        let slot = match self.conversation.open_slot() {
            Some(slot) => slot,
            None => {
                return Err(StoreError::StaleReference);
            },
        };
        let mut conversation = Conversation::new();
        std::mem::swap(&mut conversation, &mut self.conversation);
        let delivered = match item {
            StreamItem::Fragment(fragment) => match conversation.extend(slot, fragment.as_str()) {
                Err(e) => Err(e),
                Ok(()) => Ok(Delivery::Extended),
            },
            StreamItem::StreamEnd => match conversation.freeze(slot) {
                Err(e) => Err(e),
                Ok(()) => Ok(Delivery::Completed),
            },
            StreamItem::StreamError => match conversation.freeze(slot) {
                Err(e) => Err(e),
                Ok(()) => Ok(Delivery::Truncated),
            },
        };
        self.conversation = conversation;
        self.acknowledged = true;
        delivered
    }

    /// Abandons the pending send, if there is one: the answer is frozen as
    /// it stands and the session is idle. Says whether a send was abandoned.
    /// Items of the abandoned answer that still arrive are refused by
    /// [`Session::deliver`], so they no longer reach the transcript.
    pub fn reset(&mut self) -> (abandoned: bool)
        ensures
            final(self).wf(),
            final(self)@ == step(old(self)@, Event::Reset),
            abandoned == (old(self)@.phase != Phase::Idle),
    {
        proof {
            use_type_invariant(&*self);
        }
        match self.conversation.open_slot() {
            None => false,
            Some(slot) => {
                let mut conversation = Conversation::new();
                std::mem::swap(&mut conversation, &mut self.conversation);
                let frozen = conversation.freeze(slot);
                self.conversation = conversation;
                frozen.is_ok()
            },
        }
    }
}

} // verus!
