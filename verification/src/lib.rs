//! Streaming conversation synchronisation for a chat client.
//!
//! A user's prompt is sent to a text generation backend over a duplex
//! connection; the answer comes back as an open-ended run of text fragments
//! that are folded, in order, into one message of a shared transcript.
//!
//! The crate holds the decisions of that exchange as plain state machines.
//! The caller owns the connection and the user interface: it reports what
//! happened on the wire and performs what the machines hand back.
//!
//! - [`message`] and [`conversation`]: the transcript and the few operations
//!   that write to it.
//! - [`channel`]: the state of the connection, and the stream of fragments
//!   that its reports amount to.
//! - [`session`]: the one send at a time, from prompt to frozen answer.
//! - [`coordinator`]: session and channel together, the entry point for the
//!   user interface and for the owner of the connection.
//! - [`laws`]: what holds of all of them whatever happens.
//! - [`theme`]: the style classes in which the transcript is shown.

pub mod channel;
pub mod conversation;
pub mod coordinator;
pub mod laws;
pub mod message;
pub mod session;
pub mod theme;
