//! Decoders for the capabilities of a BGP OPEN message and for the body of a
//! BGP UPDATE message.
//!
//! A decoder takes a [`span::Span`], a cursor over the bytes that remain
//! which knows how far it is from the start of the buffer, and returns the
//! decoded value with the cursor behind it, or a failure. A failure is
//! either the signal that the buffer ends too early or an error with the
//! cursor at which it occurred. As an error is handed from a decoder to the
//! decoder that called it, it is wrapped once and keeps its cursor.
//!
//! Decoding reads the buffer and changes nothing: the same bytes decode to
//! the same value every time.

pub mod capabilities;
pub mod error;
pub mod iana;
pub mod readers;
pub mod sequence;
pub mod span;
pub mod update;
pub mod wire;

pub use update::BGPUpdateMessage;
