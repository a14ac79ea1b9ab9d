//! The generation channel: the state of the duplex connection to the
//! generation backend, and what each report of the transport means for it.
//!
//! The channel performs no input or output. The caller opens the connection,
//! transmits frames and reads what arrives; it tells the channel what
//! happened, and the channel says what may be transmitted and which items of
//! the answer stream the reports amount to.

use vstd::prelude::*;
use vstd::string::*;

verus! {

/// The state of the connection to the generation backend.
#[derive(Clone, Copy, Debug, PartialEq, Eq, Structural)]
pub enum ConnectionState {
    /// No connection: none was opened yet, or the last one was closed.
    Disconnected,
    /// A connection is being opened.
    Connecting,
    /// The connection is open: prompts may be sent and fragments arrive.
    Ready,
    /// The connection was lost or the peer broke the protocol.
    Faulted,
}

/// Why a connection could not be opened.
#[derive(Clone, Copy, Debug, PartialEq, Eq, Structural)]
pub enum ConnectionError {
    /// A connection is already open or being opened.
    Busy,
    /// Every connection number has been used.
    Exhausted,
    /// No connection is being opened.
    NotConnecting,
    /// The transport could not open the connection.
    Refused,
}

/// Why a prompt may not be transmitted.
#[derive(Clone, Copy, Debug, PartialEq, Eq, Structural)]
pub enum SendError {
    /// The connection is not ready, or the handle is not the one of the
    /// connection that is.
    NotReady,
    /// The peer has closed the connection.
    Closed,
}

/// Names one connection. Each connection that becomes ready gets a handle of
/// its own, so a handle of an earlier connection is told apart from the
/// current one.
#[derive(Clone, Copy, Debug, PartialEq, Eq, Structural)]
pub struct Handle {
    serial: u64,
}

impl View for Handle {
    type V = nat;

    closed spec fn view(&self) -> nat {
        self.serial as nat
    }
}

impl Handle {
    /// The number of the connection that the handle names.
    pub fn serial(&self) -> (n: u64)
        ensures
            n == self@,
    {
        self.serial
    }
}

/// What the transport reports while the connection is read.
#[derive(Clone, Debug, PartialEq, Eq)]
pub enum Incoming {
    /// A text frame arrived.
    Text(String),
    /// A frame arrived that is not text, which the protocol does not allow.
    Binary,
    /// The connection was closed; `clean` says whether in good order.
    Closed { clean: bool },
    /// The transport reported an error.
    Failed,
    /// The transport has nothing more to report.
    Ended,
}

/// An [`Incoming`] as a mathematical value.
pub enum IncomingView {
    Text(Seq<char>),
    Binary,
    Closed { clean: bool },
    Failed,
    Ended,
}

impl View for Incoming {
    type V = IncomingView;

    open spec fn view(&self) -> IncomingView {
        match self {
            Incoming::Text(s) => IncomingView::Text(s@),
            Incoming::Binary => IncomingView::Binary,
            Incoming::Closed { clean } => IncomingView::Closed { clean: *clean },
            Incoming::Failed => IncomingView::Failed,
            Incoming::Ended => IncomingView::Ended,
        }
    }
}

/// One item of the answer stream: a fragment of text, or the marker that
/// ends the stream.
#[derive(Clone, Debug, PartialEq, Eq)]
pub enum StreamItem {
    /// The next piece of the answer.
    Fragment(String),
    /// The stream ended in good order.
    StreamEnd,
    /// The stream broke off.
    StreamError,
}

/// A [`StreamItem`] as a mathematical value.
pub enum StreamItemView {
    Fragment(Seq<char>),
    StreamEnd,
    StreamError,
}

impl View for StreamItem {
    type V = StreamItemView;

    open spec fn view(&self) -> StreamItemView {
        match self {
            StreamItem::Fragment(s) => StreamItemView::Fragment(s@),
            StreamItem::StreamEnd => StreamItemView::StreamEnd,
            StreamItem::StreamError => StreamItemView::StreamError,
        }
    }
}

/// The frame that carries a prompt to the backend: the prompt itself as
/// text, with nothing added, on the connection that `handle` names.
#[derive(Clone, Debug, PartialEq, Eq)]
pub struct Frame {
    pub handle: Handle,
    pub payload: String,
}

/// What a channel is, as a mathematical value.
pub struct ChannelView {
    pub state: ConnectionState,
    /// The number of the connection that became ready last; 0 before the
    /// first one.
    pub serial: nat,
    /// The peer closed the last connection in good order, and no new one
    /// was asked for since.
    pub peer_closed: bool,
}

/// What holds of every channel.
pub open spec fn valid(c: ChannelView) -> bool {
    &&& c.serial <= u64::MAX
    &&& c.state == ConnectionState::Connecting ==> c.serial < u64::MAX
    &&& c.state == ConnectionState::Ready ==> c.serial >= 1
    &&& c.peer_closed ==> c.state == ConnectionState::Disconnected
}

/// A channel on which nothing has happened yet.
pub open spec fn fresh() -> ChannelView {
    ChannelView { state: ConnectionState::Disconnected, serial: 0, peer_closed: false }
}

/// The connection that `handle` names is the one that is ready now.
pub open spec fn live(c: ChannelView, handle: nat) -> bool {
    c.state == ConnectionState::Ready && handle == c.serial
}

/// Why nothing can be sent on a connection that is not live.
pub open spec fn unready(c: ChannelView) -> SendError {
    if c.peer_closed {
        SendError::Closed
    } else {
        SendError::NotReady
    }
}

/// Why a new connection may not be opened, if it may not: one is open or
/// being opened, or the connection numbers have run out.
pub open spec fn connect_refusal(c: ChannelView) -> Option<ConnectionError> {
    if c.state == ConnectionState::Connecting || c.state == ConnectionState::Ready {
        Some(ConnectionError::Busy)
    } else if c.serial >= u64::MAX {
        Some(ConnectionError::Exhausted)
    } else {
        None
    }
}

/// A new connection may be opened.
pub open spec fn can_connect(c: ChannelView) -> bool {
    connect_refusal(c) is None
}

/// The channel after the caller asked for a connection.
pub open spec fn after_connect(c: ChannelView) -> ChannelView {
    if can_connect(c) {
        ChannelView { state: ConnectionState::Connecting, peer_closed: false, ..c }
    } else {
        c
    }
}

/// Why no connection came of a report on how the opening went, if none
/// did: no connection was being opened, or the transport could not open it.
pub open spec fn finish_refusal(c: ChannelView, opened: bool) -> Option<ConnectionError> {
    if c.state != ConnectionState::Connecting {
        Some(ConnectionError::NotConnecting)
    } else if !opened {
        Some(ConnectionError::Refused)
    } else {
        None
    }
}

/// The channel after the transport said how the opening went.
pub open spec fn after_finish(c: ChannelView, opened: bool) -> ChannelView {
    if c.state != ConnectionState::Connecting {
        c
    } else if opened {
        ChannelView { state: ConnectionState::Ready, serial: c.serial + 1, ..c }
    } else {
        ChannelView { state: ConnectionState::Disconnected, ..c }
    }
}

/// The item of the answer stream that a report amounts to. Text is a
/// fragment, word for word. A close in good order, or the plain end of the
/// reports, ends the stream; anything else breaks it.
pub open spec fn item_of(event: IncomingView) -> StreamItemView {
    match event {
        IncomingView::Text(s) => StreamItemView::Fragment(s),
        IncomingView::Closed { clean: true } => StreamItemView::StreamEnd,
        IncomingView::Ended => StreamItemView::StreamEnd,
        IncomingView::Closed { clean: false } => StreamItemView::StreamError,
        IncomingView::Binary => StreamItemView::StreamError,
        IncomingView::Failed => StreamItemView::StreamError,
    }
}

/// The item ends its stream.
pub open spec fn is_terminal(item: StreamItemView) -> bool {
    !(item is Fragment)
}

/// What the channel hands on for a report on the connection `handle`:
/// nothing unless that connection is live.
pub open spec fn emitted(c: ChannelView, handle: nat, event: IncomingView) -> Option<
    StreamItemView,
> {
    if live(c, handle) {
        Some(item_of(event))
    } else {
        None
    }
}

/// The channel after a report on the connection `handle`. A report on a
/// connection that is not live changes nothing. On the live connection a
/// fragment leaves the channel ready, the marker of an orderly end leaves it
/// disconnected by the peer, and the marker of a broken stream leaves it
/// faulted.
pub open spec fn after_receive(c: ChannelView, handle: nat, event: IncomingView) -> ChannelView {
    if !live(c, handle) {
        c
    } else {
        match item_of(event) {
            StreamItemView::Fragment(_) => c,
            StreamItemView::StreamEnd => ChannelView {
                state: ConnectionState::Disconnected,
                peer_closed: true,
                ..c
            },
            StreamItemView::StreamError => ChannelView { state: ConnectionState::Faulted, ..c },
        }
    }
}

/// The channel after the caller closed the connection.
pub open spec fn after_close(c: ChannelView) -> ChannelView {
    ChannelView { state: ConnectionState::Disconnected, peer_closed: false, ..c }
}

/// What can happen to a channel.
pub enum ChannelOp {
    /// The caller starts to open a connection.
    Connect,
    /// The transport said whether the connection was opened.
    FinishConnect(bool),
    /// The transport reports this on this connection.
    Receive(nat, IncomingView),
    /// The caller closed the connection.
    Close,
}

/// The channel after one operation.
pub open spec fn channel_step(c: ChannelView, op: ChannelOp) -> ChannelView {
    match op {
        ChannelOp::Connect => after_connect(c),
        ChannelOp::FinishConnect(opened) => after_finish(c, opened),
        ChannelOp::Receive(handle, event) => after_receive(c, handle, event),
        ChannelOp::Close => after_close(c),
    }
}

/// The channel after a run of operations, taken in order.
pub open spec fn channel_run(c: ChannelView, ops: Seq<ChannelOp>) -> ChannelView
    decreases ops.len(),
{
    if ops.len() == 0 {
        c
    } else {
        channel_step(channel_run(c, ops.drop_last()), ops.last())
    }
}

/// The channel after a run of reports on the connection `handle`, taken in
/// order.
pub open spec fn after_reports(
    c: ChannelView,
    handle: nat,
    events: Seq<IncomingView>,
) -> ChannelView
    decreases events.len(),
{
    if events.len() == 0 {
        c
    } else {
        after_receive(after_reports(c, handle, events.drop_last()), handle, events.last())
    }
}

/// The items that the channel hands on for a run of reports on the
/// connection `handle`, in the order in which it hands them on.
pub open spec fn drained(c: ChannelView, handle: nat, events: Seq<IncomingView>) -> Seq<
    StreamItemView,
>
    decreases events.len(),
{
    if events.len() == 0 {
        Seq::<StreamItemView>::empty()
    } else {
        let earlier = drained(c, handle, events.drop_last());
        match emitted(after_reports(c, handle, events.drop_last()), handle, events.last()) {
            Some(item) => earlier.push(item),
            None => earlier,
        }
    }
}

/// The address of the backend's socket on the host `hostname`.
pub open spec fn endpoint_of(hostname: Seq<char>) -> Seq<char> {
    "ws://"@ + hostname + ":3000/ws"@
}

/// The address at which the backend on `hostname` accepts connections.
pub fn endpoint(hostname: &str) -> (url: String)
    ensures
        url@ == endpoint_of(hostname@),
{
    String::from_str("ws://").concat(hostname).concat(":3000/ws")
}

/// The connection to the generation backend, as the caller has reported it.
#[derive(Clone, Copy, Debug)]
pub struct Channel {
    state: ConnectionState,
    serial: u64,
    peer_closed: bool,
}

impl View for Channel {
    type V = ChannelView;

    closed spec fn view(&self) -> ChannelView {
        ChannelView { state: self.state, serial: self.serial as nat, peer_closed: self.peer_closed }
    }
}

impl Channel {
    /// The channel's invariant, see [`valid`]. It holds of every channel at
    /// all times.
    pub open spec fn wf(&self) -> bool {
        valid(self@)
    }

    #[verifier::type_invariant]
    closed spec fn inv(self) -> bool {
        self.wf()
    }

    /// A channel without a connection.
    pub fn new() -> (c: Channel)
        ensures
            c.wf(),
            c@ == fresh(),
    {
        Channel { state: ConnectionState::Disconnected, serial: 0, peer_closed: false }
    }

    /// A channel without a connection whose connections will be numbered
    /// from `serial + 1` on, so that their handles differ from every handle
    /// with a number up to `serial`.
    pub fn numbered_from(serial: u64) -> (c: Channel)
        ensures
            c.wf(),
            c@ == (ChannelView { serial: serial as nat, ..fresh() }),
    {
        Channel { state: ConnectionState::Disconnected, serial, peer_closed: false }
    }

    pub fn state(&self) -> (s: ConnectionState)
        ensures
            s == self@.state,
    {
        self.state
    }

    /// Whether `handle` names the connection that is ready now.
    pub fn is_live(&self, handle: Handle) -> (b: bool)
        ensures
            b == live(self@, handle@),
    {
        match self.state {
            ConnectionState::Ready => handle.serial == self.serial,
            _ => false,
        }
    }

    /// The handle of the connection that is ready, or why a prompt cannot
    /// be sent now: `Closed` if the peer has closed the connection,
    /// `NotReady` if there is none for another reason.
    pub fn handle(&self) -> (r: Result<Handle, SendError>)
        ensures
            match r {
                Ok(handle) => live(self@, handle@),
                Err(e) => self@.state != ConnectionState::Ready && e == unready(self@),
            },
    {
        match self.state {
            ConnectionState::Ready => Ok(Handle { serial: self.serial }),
            _ => if self.peer_closed {
                Err(SendError::Closed)
            } else {
                Err(SendError::NotReady)
            },
        }
    }

    /// Notes that the caller starts to open a connection. Accepted when
    /// there is none and the last one is over; the channel is then
    /// `Connecting`. Refused without any change while a connection is open
    /// or being opened (`Busy`), and when the connection numbers have run
    /// out (`Exhausted`), see [`connect_refusal`]. The channel never opens
    /// or retries a connection by itself.
    pub fn connect(&mut self) -> (r: Result<(), ConnectionError>)
        ensures
            final(self).wf(),
            final(self)@ == after_connect(old(self)@),
            match r {
                Ok(()) => connect_refusal(old(self)@) is None,
                Err(e) => connect_refusal(old(self)@) == Some(e) && final(self)@ == old(self)@,
            },
    {
        proof {
            use_type_invariant(&*self);
        }
        match self.state {
            ConnectionState::Connecting | ConnectionState::Ready => Err(ConnectionError::Busy),
            ConnectionState::Disconnected | ConnectionState::Faulted => {
                if self.serial == u64::MAX {
                    Err(ConnectionError::Exhausted)
                } else {
                    *self = Channel {
                        state: ConnectionState::Connecting,
                        serial: self.serial,
                        peer_closed: false,
                    };
                    Ok(())
                }
            },
        }
    }

    /// Notes how the opening went. While `Connecting`: if the transport
    /// opened the connection the channel is `Ready` and the new connection's
    /// handle is returned; if not, the channel is `Disconnected` and the
    /// error is `Refused`. In any other state the report is refused with
    /// `NotConnecting`, without any change. See [`finish_refusal`].
    pub fn finish_connect(&mut self, opened: bool) -> (r: Result<Handle, ConnectionError>)
        ensures
            final(self).wf(),
            final(self)@ == after_finish(old(self)@, opened),
            match r {
                Ok(handle) => finish_refusal(old(self)@, opened) is None && live(
                    final(self)@,
                    handle@,
                ),
                Err(e) => finish_refusal(old(self)@, opened) == Some(e),
            },
    {
        proof {
            use_type_invariant(&*self);
        }
        match self.state {
            ConnectionState::Connecting => {
                if opened {
                    let serial = self.serial + 1;
                    *self = Channel { state: ConnectionState::Ready, serial, peer_closed: false };
                    Ok(Handle { serial })
                } else {
                    self.state = ConnectionState::Disconnected;
                    Err(ConnectionError::Refused)
                }
            },
            _ => Err(ConnectionError::NotConnecting),
        }
    }

    /// Decides whether `text` may be transmitted on the connection `handle`
    /// and, if so, returns the frame to transmit. The frame is owed exactly
    /// when that connection is live; otherwise the error is `Closed` if the
    /// peer has closed the connection, and `NotReady` if not.
    pub fn send_prompt(&self, handle: Handle, text: &str) -> (r: Result<Frame, SendError>)
        ensures
            match r {
                Ok(frame) => live(self@, handle@) && frame.handle == handle && frame.payload@
                    == text@,
                Err(e) => !live(self@, handle@) && e == unready(self@),
            },
    {
        if self.is_live(handle) {
            Ok(Frame { handle, payload: text.to_owned() })
        } else if self.peer_closed {
            Err(SendError::Closed)
        } else {
            Err(SendError::NotReady)
        }
    }

    /// Takes one report of the transport about the connection `handle` and
    /// returns the item of the answer stream that it amounts to.
    ///
    /// While that connection is live, text is handed on as a fragment; a
    /// close in good order, or the end of the reports, ends the stream and
    /// leaves the channel `Disconnected`; a frame that is not text, a close
    /// that was not in good order or an error of the transport breaks the
    /// stream and leaves the channel `Faulted`. A report on any other
    /// connection is dropped, so nothing follows the marker that ended a
    /// stream.
    pub fn receive(&mut self, handle: Handle, event: Incoming) -> (item: Option<StreamItem>)
        ensures
            final(self).wf(),
            final(self)@ == after_receive(old(self)@, handle@, event@),
            match item {
                Some(i) => emitted(old(self)@, handle@, event@) == Some(i@),
                None => emitted(old(self)@, handle@, event@) is None,
            },
    {
        proof {
            use_type_invariant(&*self);
        }
        if !self.is_live(handle) {
            return None;
        }
        let item = match event {
            Incoming::Text(s) => StreamItem::Fragment(s),
            Incoming::Closed { clean: true } => StreamItem::StreamEnd,
            Incoming::Ended => StreamItem::StreamEnd,
            Incoming::Closed { clean: false } => StreamItem::StreamError,
            Incoming::Binary => StreamItem::StreamError,
            Incoming::Failed => StreamItem::StreamError,
        };
        match item {
            StreamItem::Fragment(_) => {},
            StreamItem::StreamEnd => {
                *self = Channel {
                    state: ConnectionState::Disconnected,
                    serial: self.serial,
                    peer_closed: true,
                };
            },
            StreamItem::StreamError => {
                self.state = ConnectionState::Faulted;
            },
        }
        Some(item)
    }

    /// Notes that the caller closed the connection, or gave up opening it.
    /// The channel is `Disconnected`, and no handle handed out so far is
    /// live any more.
    pub fn close(&mut self)
        ensures
            final(self).wf(),
            final(self)@ == after_close(old(self)@),
    {
        proof {
            use_type_invariant(&*self);
        }
        *self = Channel {
            state: ConnectionState::Disconnected,
            serial: self.serial,
            peer_closed: false,
        };
    }
}

} // verus!
