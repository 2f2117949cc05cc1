//! Decision core of a minimal one-shot UDP datagram sender.
//!
//! The sender takes a destination address (a byte string that must be valid
//! UTF-8 text of the form `host:port`) and an opaque payload, transmits the
//! payload as a single datagram from a freshly bound ephemeral socket, and
//! reports either the number of bytes accepted or a single negative failure
//! sentinel. This crate holds everything about that call that is a pure
//! decision: input validation, address-encoding validation, and the collapse
//! of every failure cause to the sentinel. The socket work itself (bind,
//! resolve, send) is platform I/O and is driven by a thin unverified layer
//! that feeds its outcomes back into the functions here.

pub mod encoding;
pub mod sender;
