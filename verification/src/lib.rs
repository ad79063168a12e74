//! Contact header codec for the bundle-protocol TCP convergence layer.
//!
//! A contact header is the first message exchanged on a TCPCL session: a
//! fixed-size negotiation record (magic bytes, protocol version, capability
//! flags, keepalive interval, receive-size limits) followed by an optional
//! length-prefixed UTF-8 endpoint identifier.
//!
//! The library offers a builder for in-memory headers, an encoder that
//! produces the exact wire bytes, and a restartable decoder that reports a
//! complete parse, a need for more bytes, or a permanent format error.

pub mod codec;
pub mod endian;
pub mod errors;
pub mod flags;
pub mod header;
pub mod laws;

pub use codec::{DecodeResult, IncompleteHint, FIXED_LEN};
pub use errors::{BuildError, DecodeError};
pub use flags::{ContactHeaderFlag, ContactHeaderFlags, KNOWN_FLAG_BITS};
pub use header::{ContactHeader, HeaderView, MAX_EID_LEN, PROTOCOL_VERSION};
