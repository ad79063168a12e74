use crate::endian::{spec_u16_be, spec_u16_from_be, spec_u64_be, spec_u64_from_be};
use crate::errors::DecodeError;
use crate::flags::flag_bits_wf;
use crate::header::{ContactHeader, HeaderView, PROTOCOL_VERSION};
use vstd::prelude::*;
use vstd::utf8::{decode_utf8, encode_utf8, valid_utf8};

verus! {

/// Length of the fixed part of the wire format: everything up to and
/// including the 16-bit endpoint-id length field.
pub const FIXED_LEN: usize = 26;

/// The four magic bytes that open every contact header.
pub open spec fn spec_magic() -> Seq<u8> {
    seq![0x64u8, 0x74u8, 0x6eu8, 0x21u8]
}

/// The UTF-8 bytes of the endpoint id; empty when it is absent.
pub open spec fn spec_eid_bytes(h: HeaderView) -> Seq<u8> {
    match h.eid {
        Some(s) => encode_utf8(s),
        None => Seq::empty(),
    }
}

/// The exact wire bytes of a header: magic, version, flags, then the
/// keepalive, both receive limits and the endpoint-id length big-endian,
/// then the endpoint-id bytes.
pub open spec fn spec_encode(h: HeaderView) -> Seq<u8> {
    spec_magic() + seq![h.version, h.flags] + spec_u16_be(h.keepalive) + spec_u64_be(h.segment_mru)
        + spec_u64_be(h.transfer_mru) + spec_u16_be(h.eid_len() as u16) + spec_eid_bytes(h)
}

/// What decoding a byte sequence must yield.
#[verifier::ext_equal]
pub ghost enum SpecDecoded {
    /// A prefix of the buffer parsed successfully; `consumed` is its length.
    Complete { header: HeaderView, consumed: int },
    /// The buffer is too short to decide; `need` is the exact shortfall in
    /// bytes once it is calculable, and `None` before that.
    Incomplete { need: Option<int> },
    /// The buffer can never be completed into a valid header.
    Invalid { err: DecodeError },
}

/// The decoding relation, step by step in the order of the wire format.
/// Each fixed-size field is checked as soon as its bytes are available, so
/// a malformed stream fails fast; a buffer merely too short at the point
/// being examined yields `Incomplete`.
pub open spec fn spec_decode(b: Seq<u8>) -> SpecDecoded {
    if b.len() < 4 {
        SpecDecoded::Incomplete { need: None }
    } else if b.subrange(0, 4) != spec_magic() {
        SpecDecoded::Invalid { err: DecodeError::BadMagic }
    } else if b.len() < 5 {
        SpecDecoded::Incomplete { need: None }
    } else if b[4] != PROTOCOL_VERSION {
        SpecDecoded::Invalid { err: DecodeError::UnsupportedVersion }
    } else if b.len() < 6 {
        SpecDecoded::Incomplete { need: None }
    } else if !flag_bits_wf(b[5]) {
        SpecDecoded::Invalid { err: DecodeError::UnknownFlagBits }
    } else if b.len() < FIXED_LEN {
        SpecDecoded::Incomplete { need: None }
    } else {
        let l = spec_u16_from_be(b[24], b[25]) as int;
        if b.len() < FIXED_LEN + l {
            SpecDecoded::Incomplete { need: Some(FIXED_LEN + l - b.len()) }
        } else if l > 0 && !valid_utf8(b.subrange(26, 26 + l)) {
            SpecDecoded::Invalid { err: DecodeError::EndpointIdNotUtf8 }
        } else {
            SpecDecoded::Complete {
                header: HeaderView {
                    version: PROTOCOL_VERSION,
                    flags: b[5],
                    keepalive: spec_u16_from_be(b[6], b[7]),
                    segment_mru: spec_u64_from_be(b.subrange(8, 16)),
                    transfer_mru: spec_u64_from_be(b.subrange(16, 24)),
                    eid: if l == 0 {
                        None
                    } else {
                        Some(decode_utf8(b.subrange(26, 26 + l)))
                    },
                },
                consumed: FIXED_LEN + l,
            }
        }
    }
}

/// How far a decode attempt got when the buffer ran out.
#[derive(Clone, Copy, Debug, PartialEq, Eq, Structural)]
pub enum IncompleteHint {
    /// The shortfall is not yet calculable from the bytes already present.
    Unknown,
    /// At least this many further bytes are needed to finish the message.
    Need(usize),
}

/// Outcome of decoding a byte buffer that may hold a complete message, a
/// truncated prefix of one, or garbage.
#[derive(Debug)]
pub enum DecodeResult {
    /// A complete header parsed from the buffer prefix of the given length;
    /// the next message of the stream starts right after that prefix.
    Complete(ContactHeader, usize),
    /// More bytes are needed; buffer further input and decode again from the
    /// start of the same message.
    Incomplete(IncompleteHint),
    /// A permanent format violation; retrying with the same bytes is
    /// pointless.
    Invalid(DecodeError),
}

/// Relies on `String::from_utf8`: it returns `Ok` exactly when the input is
/// valid UTF-8, and the returned string is carried by exactly the input
/// bytes.
#[verifier::external_body]
pub(crate) fn string_from_utf8(bytes: Vec<u8>) -> (r: Option<String>)
    ensures
        match r {
            Some(s) => valid_utf8(bytes@) && encode_utf8(s@) == bytes@,
            None => !valid_utf8(bytes@),
        },
{
    String::from_utf8(bytes).ok()
}

} // verus!
