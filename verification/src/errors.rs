use vstd::prelude::*;

verus! {

/// A permanent wire-format violation found while decoding: the bytes can
/// never be completed into a valid contact header.
#[derive(Clone, Copy, Debug, PartialEq, Eq, Structural)]
pub enum DecodeError {
    /// The first four bytes differ from the contact-header magic.
    BadMagic,
    /// The version byte is not the single supported protocol version.
    UnsupportedVersion,
    /// The flags byte carries a bit outside the known enumeration.
    UnknownFlagBits,
    /// The endpoint-id bytes are not valid UTF-8 text.
    EndpointIdNotUtf8,
}

/// A construction-time validation error raised by the header builder;
/// it is surfaced synchronously and never reaches the wire.
#[derive(Clone, Copy, Debug, PartialEq, Eq, Structural)]
pub enum BuildError {
    /// The endpoint id's UTF-8 byte length would not fit the 16-bit
    /// length field of the wire format.
    EndpointIdTooLong,
}

} // verus!
