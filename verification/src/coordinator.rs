//! The send coordinator: the one entry point through which a user interface
//! sends a prompt, and through which the owner of the connection reports
//! what the transport did.
//!
//! The coordinator checks a send against the session, lets the session
//! write the transcript, and tells the caller which frame to transmit. What
//! goes wrong at once is returned from the call; what goes wrong later shows
//! in the transcript, as an answer that stays as far as it got.

use vstd::prelude::*;
use crate::channel::{
    after_close, after_connect, after_finish, after_receive, connect_refusal, emitted,
    finish_refusal, fresh, is_terminal, live, unready, valid, Channel, ChannelView,
    ConnectionError, ConnectionState, Frame, Handle, Incoming, IncomingView, SendError,
    StreamItemView,
};
use crate::conversation::shows;
use crate::message::Origin;
use crate::session::{
    consistent, initial, step, Delivery, Event, Phase, Session, SessionView,
};

verus! {

/// Why a prompt was not taken. Nothing changes when a prompt is not taken.
#[derive(Clone, Copy, Debug, PartialEq, Eq, Structural)]
pub enum SubmitError {
    /// An answer is still in progress.
    InvalidState,
    /// There is no connection to send the prompt on.
    Connection(SendError),
}

/// What a report of the transport did.
#[derive(Clone, Copy, Debug, PartialEq, Eq, Structural)]
pub enum Notice {
    /// Nothing: the report was out of date or out of turn.
    Ignored,
    /// The backend has the prompt; the answer is awaited.
    Acknowledged,
    /// A fragment was added to the answer.
    Extended,
    /// The answer is complete.
    Completed,
    /// The answer broke off and stays as far as it got.
    Truncated,
    /// The connection ended while no send was pending.
    Disconnected,
}

impl Notice {
    /// Whether what was reported changed the transcript, so that whoever
    /// shows the transcript has to read it again.
    pub open spec fn touches_transcript(self) -> bool {
        self == Notice::Extended || self == Notice::Completed || self == Notice::Truncated
    }

    /// Whether the transcript has to be read again, see
    /// [`Notice::touches_transcript`].
    pub fn changed_transcript(&self) -> (b: bool)
        ensures
            b == self.touches_transcript(),
    {
        match self {
            Notice::Extended | Notice::Completed | Notice::Truncated => true,
            Notice::Ignored | Notice::Acknowledged | Notice::Disconnected => false,
        }
    }
}

/// What a coordinator is, as a mathematical value.
pub struct CoordinatorView {
    pub session: SessionView,
    pub channel: ChannelView,
}

/// What a coordinator can be told.
pub enum Command {
    /// The caller starts to open a connection.
    Connect,
    /// The transport said whether the connection was opened.
    FinishConnect(bool),
    /// The user submits a prompt with this text.
    Submit(Seq<char>),
    /// The frame with the prompt went out on this connection.
    Transmitted(nat),
    /// The frame with the prompt could not be sent on this connection.
    TransmitFailed(nat),
    /// The transport reports this on this connection.
    Receive(nat, IncomingView),
    /// The caller abandons the pending send and closes the connection.
    Reset,
}

/// A coordinator at its start: an idle session, no connection.
pub open spec fn start() -> CoordinatorView {
    CoordinatorView { session: initial(), channel: fresh() }
}

/// What holds of every coordinator: session and channel are each in order,
/// and a send is pending only on a connection that is ready.
pub open spec fn coherent(v: CoordinatorView) -> bool {
    &&& consistent(v.session)
    &&& valid(v.channel)
    &&& v.session.phase != Phase::Idle ==> v.channel.state == ConnectionState::Ready
}

/// Why a prompt submitted now would not be taken, if it would not: an answer
/// in progress comes first, then a connection that is not ready.
pub open spec fn refusal(v: CoordinatorView) -> Option<SubmitError> {
    if v.session.phase != Phase::Idle {
        Some(SubmitError::InvalidState)
    } else if v.channel.state != ConnectionState::Ready {
        Some(SubmitError::Connection(unready(v.channel)))
    } else {
        None
    }
}

/// The coordinator after a report on the connection `handle`. A report on
/// a connection that is not live changes nothing. Otherwise the channel
/// takes the report and the session takes the item that it amounts to.
pub open spec fn after_report(
    v: CoordinatorView,
    handle: nat,
    event: IncomingView,
) -> CoordinatorView {
    match emitted(v.channel, handle, event) {
        None => v,
        Some(item) => CoordinatorView {
            session: step(v.session, Event::Item(item)),
            channel: after_receive(v.channel, handle, event),
        },
    }
}

/// The coordinator after a command.
pub open spec fn advance(v: CoordinatorView, command: Command) -> CoordinatorView {
    match command {
        Command::Connect => CoordinatorView { channel: after_connect(v.channel), ..v },
        Command::FinishConnect(opened) => CoordinatorView {
            channel: after_finish(v.channel, opened),
            ..v
        },
        Command::Submit(text) => if refusal(v) is None {
            CoordinatorView { session: step(v.session, Event::Submit(text)), ..v }
        } else {
            v
        },
        Command::Transmitted(handle) => if live(v.channel, handle) {
            CoordinatorView { session: step(v.session, Event::Acknowledged), ..v }
        } else {
            v
        },
        Command::TransmitFailed(handle) => after_report(v, handle, IncomingView::Failed),
        Command::Receive(handle, event) => after_report(v, handle, event),
        Command::Reset => CoordinatorView {
            session: step(v.session, Event::Reset),
            channel: after_close(v.channel),
        },
    }
}

/// The coordinator after a run of commands, taken in order.
pub open spec fn proceed(v: CoordinatorView, commands: Seq<Command>) -> CoordinatorView
    decreases commands.len(),
{
    if commands.len() == 0 {
        v
    } else {
        advance(proceed(v, commands.drop_last()), commands.last())
    }
}

/// What the caller is told about a report on the connection `handle`.
pub open spec fn notice_of(v: CoordinatorView, handle: nat, event: IncomingView) -> Notice {
    match emitted(v.channel, handle, event) {
        None => Notice::Ignored,
        Some(item) => if v.session.phase != Phase::Idle {
            match item {
                StreamItemView::Fragment(_) => Notice::Extended,
                StreamItemView::StreamEnd => Notice::Completed,
                StreamItemView::StreamError => Notice::Truncated,
            }
        } else if is_terminal(item) {
            Notice::Disconnected
        } else {
            Notice::Ignored
        },
    }
}

/// A session together with the channel that carries its sends.
#[derive(Debug)]
pub struct Coordinator {
    session: Session,
    channel: Channel,
}

impl View for Coordinator {
    type V = CoordinatorView;

    closed spec fn view(&self) -> CoordinatorView {
        CoordinatorView { session: self.session@, channel: self.channel@ }
    }
}

impl Clone for Coordinator {
    /// A second coordinator in the same state.
    fn clone(&self) -> (c: Coordinator)
        ensures
            c@ == self@,
    {
        proof {
            use_type_invariant(self);
        }
        Coordinator { session: self.session.clone(), channel: self.channel }
    }
}

impl Coordinator {
    /// The coordinator's invariant, see [`coherent`]. It holds of every
    /// coordinator at all times.
    pub open spec fn wf(&self) -> bool {
        coherent(self@)
    }

    #[verifier::type_invariant]
    closed spec fn inv(self) -> bool {
        self.wf()
    }

    /// A coordinator at its start.
    pub fn new() -> (c: Coordinator)
        ensures
            c.wf(),
            c@ == start(),
    {
        Coordinator { session: Session::new(), channel: Channel::new() }
    }

    /// The session, to read.
    pub fn session(&self) -> (s: &Session)
        ensures
            s@ == self@.session,
    {
        &self.session
    }

    /// The state of the connection. The coordinator looks at it and never
    /// changes it on its own account.
    pub fn connection_state(&self) -> (s: ConnectionState)
        ensures
            s == self@.channel.state,
    {
        self.channel.state()
    }

    /// The handle of the connection that is ready, or why a prompt cannot
    /// be sent now, see [`Channel::handle`].
    pub fn handle(&self) -> (r: Result<Handle, SendError>)
        ensures
            match r {
                Ok(handle) => live(self@.channel, handle@),
                Err(e) => self@.channel.state != ConnectionState::Ready && e == unready(
                    self@.channel,
                ),
            },
    {
        self.channel.handle()
    }

    /// Whether `handle` names the connection that is ready now. The task
    /// that reads a connection goes on only while this holds.
    pub fn is_live(&self, handle: Handle) -> (b: bool)
        ensures
            b == live(self@.channel, handle@),
    {
        self.channel.is_live(handle)
    }

    /// The whole transcript as it is now.
    pub fn snapshot(&self) -> (rows: Vec<(Origin, String)>)
        ensures
            shows(rows@, self@.session.transcript),
    {
        self.session.snapshot()
    }

    /// Notes that the caller starts to open a connection, see
    /// [`Channel::connect`].
    pub fn connect(&mut self) -> (r: Result<(), ConnectionError>)
        ensures
            final(self).wf(),
            final(self)@ == advance(old(self)@, Command::Connect),
            match r {
                Ok(()) => connect_refusal(old(self)@.channel) is None,
                Err(e) => connect_refusal(old(self)@.channel) == Some(e) && final(self)@ == old(
                    self,
                )@,
            },
    {
        proof {
            use_type_invariant(&*self);
        }
        let mut channel = self.channel;
        let r = channel.connect();
        self.channel = channel;
        r
    }

    /// Notes how the opening went, see [`Channel::finish_connect`]. On
    /// success the handle of the new connection is returned.
    pub fn finish_connect(&mut self, opened: bool) -> (r: Result<Handle, ConnectionError>)
        ensures
            final(self).wf(),
            final(self)@ == advance(old(self)@, Command::FinishConnect(opened)),
            match r {
                Ok(handle) => finish_refusal(old(self)@.channel, opened) is None && live(
                    final(self)@.channel,
                    handle@,
                ),
                Err(e) => finish_refusal(old(self)@.channel, opened) == Some(e),
            },
    {
        proof {
            use_type_invariant(&*self);
        }
        let mut channel = self.channel;
        let r = channel.finish_connect(opened);
        self.channel = channel;
        r
    }

    /// Takes a prompt from the user interface.
    ///
    /// The prompt is taken exactly when the session is idle and the
    /// connection is ready. The user's message and the empty slot of the
    /// answer are then in the transcript, and the frame to transmit is
    /// returned: the prompt itself on the ready connection. Otherwise the
    /// error says why, see [`refusal`], and nothing changes.
    pub fn submit(&mut self, text: String) -> (r: Result<Frame, SubmitError>)
        ensures
            final(self).wf(),
            final(self)@ == advance(old(self)@, Command::Submit(text@)),
            match r {
                Ok(frame) => {
                    &&& refusal(old(self)@) is None
                    &&& live(old(self)@.channel, frame.handle@)
                    &&& frame.payload@ == text@
                },
                Err(e) => refusal(old(self)@) == Some(e) && final(self)@ == old(self)@,
            },
    {
        proof {
            use_type_invariant(&*self);
        }
        if !self.session.is_idle() {
            return Err(SubmitError::InvalidState);
        }
        let handle = match self.channel.handle() {
            Ok(handle) => handle,
            Err(e) => {
                return Err(SubmitError::Connection(e));
            },
        };
        let frame = match self.channel.send_prompt(handle, text.as_str()) {
            Ok(frame) => frame,
            Err(e) => {
                return Err(SubmitError::Connection(e));
            },
        };
        // The session is worked on outside the coordinator and put back at
        // once, so that the coordinator is in order at every point.
        let mut session = Session::new();
        std::mem::swap(&mut session, &mut self.session);
        let taken = session.submit(text);
        self.session = session;
        match taken {
            Ok(_) => Ok(frame),
            Err(_) => Err(SubmitError::InvalidState),
        }
    }

    /// Notes that the frame with the prompt went out on the connection
    /// `handle`. If that connection is live and the session is `Sending`,
    /// the session is `Streaming` from now on and the notice is
    /// `Acknowledged`; otherwise nothing changes and the notice is
    /// `Ignored`.
    pub fn transmitted(&mut self, handle: Handle) -> (notice: Notice)
        ensures
            final(self).wf(),
            final(self)@ == advance(old(self)@, Command::Transmitted(handle@)),
            notice == if live(old(self)@.channel, handle@) && old(self)@.session.phase
                == Phase::Sending {
                Notice::Acknowledged
            } else {
                Notice::Ignored
            },
            final(self)@.session.transcript == old(self)@.session.transcript,
            notice == Notice::Ignored ==> final(self)@ == old(self)@,
    {
        proof {
            use_type_invariant(&*self);
        }
        if !self.channel.is_live(handle) {
            return Notice::Ignored;
        }
        let mut session = Session::new();
        std::mem::swap(&mut session, &mut self.session);
        let acknowledged = session.acknowledge();
        self.session = session;
        match acknowledged {
            Ok(()) => Notice::Acknowledged,
            Err(_) => Notice::Ignored,
        }
    }

    /// Notes that the frame with the prompt could not be sent on the
    /// connection `handle`. This counts as the loss of that connection: the
    /// answer, if one is pending, is frozen as it stands, which is empty
    /// unless fragments have arrived, and the session is idle.
    pub fn transmit_failed(&mut self, handle: Handle) -> (notice: Notice)
        ensures
            final(self).wf(),
            final(self)@ == advance(old(self)@, Command::TransmitFailed(handle@)),
            notice == notice_of(old(self)@, handle@, IncomingView::Failed),
            !notice.touches_transcript() ==> final(self)@.session == old(self)@.session,
    {
        self.receive(handle, Incoming::Failed)
    }

    /// Takes one report of the transport about the connection `handle`.
    ///
    /// A report on a connection that is not live is ignored. Otherwise the
    /// channel turns it into an item of the answer stream, see
    /// [`Channel::receive`], and the session takes the item, see
    /// [`Session::deliver`]: fragments reach the transcript in the order in
    /// which they are reported, and none after the stream has ended. The
    /// notice says what happened, see [`notice_of`].
    pub fn receive(&mut self, handle: Handle, event: Incoming) -> (notice: Notice)
        ensures
            final(self).wf(),
            final(self)@ == advance(old(self)@, Command::Receive(handle@, event@)),
            notice == notice_of(old(self)@, handle@, event@),
            !notice.touches_transcript() ==> final(self)@.session == old(self)@.session,
    {
        proof {
            use_type_invariant(&*self);
        }
        let mut session = Session::new();
        std::mem::swap(&mut session, &mut self.session);
        let mut channel = self.channel;
        let notice = match channel.receive(handle, event) {
            None => Notice::Ignored,
            Some(item) => match session.deliver(item) {
                Ok(Delivery::Extended) => Notice::Extended,
                Ok(Delivery::Completed) => Notice::Completed,
                Ok(Delivery::Truncated) => Notice::Truncated,
                Err(_) => if channel.is_live(handle) {
                    Notice::Ignored
                } else {
                    Notice::Disconnected
                },
            },
        };
        self.channel = channel;
        self.session = session;
        notice
    }

    /// Abandons the pending send, if there is one, and notes that the caller
    /// closes the connection. Says whether a send was abandoned. No handle
    /// handed out so far is live afterwards, so whatever the closed
    /// connection still reports no longer reaches the transcript.
    pub fn reset(&mut self) -> (abandoned: bool)
        ensures
            final(self).wf(),
            final(self)@ == advance(old(self)@, Command::Reset),
            abandoned == (old(self)@.session.phase != Phase::Idle),
    {
        proof {
            use_type_invariant(&*self);
        }
        let mut session = Session::new();
        std::mem::swap(&mut session, &mut self.session);
        let abandoned = session.reset();
        self.session = session;
        let mut channel = self.channel;
        channel.close();
        self.channel = channel;
        abandoned
    }
}

} // verus!
