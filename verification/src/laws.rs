use crate::codec::{spec_decode, spec_eid_bytes, spec_encode, spec_magic, SpecDecoded, FIXED_LEN};
use crate::endian::{
    lemma_u16_be_round_trip, lemma_u64_be_round_trip, spec_u16_be, spec_u16_from_be, spec_u64_be,
};
use crate::errors::DecodeError;
use crate::flags::flag_bits_wf;
use crate::header::{HeaderView, PROTOCOL_VERSION};
use vstd::prelude::*;
use vstd::utf8::{encode_utf8_decode_utf8, encode_utf8_valid_utf8};

verus! {

/// Where each field of the wire format stands inside the encoding of a
/// header: the byte layout behind [`spec_encode`].
pub proof fn lemma_encode_layout(h: HeaderView)
    ensures
        spec_encode(h).len() == FIXED_LEN + h.eid_len(),
        spec_encode(h).subrange(0, 4) == spec_magic(),
        spec_encode(h)[4] == h.version,
        spec_encode(h)[5] == h.flags,
        spec_encode(h).subrange(6, 8) == spec_u16_be(h.keepalive),
        spec_encode(h).subrange(8, 16) == spec_u64_be(h.segment_mru),
        spec_encode(h).subrange(16, 24) == spec_u64_be(h.transfer_mru),
        spec_encode(h).subrange(24, 26) == spec_u16_be(h.eid_len() as u16),
        spec_encode(h).subrange(26, spec_encode(h).len() as int) == spec_eid_bytes(h),
{
    let b = spec_encode(h);
    assert(spec_eid_bytes(h).len() == h.eid_len());
    assert(b.subrange(0, 4) =~= spec_magic());
    assert(b.subrange(6, 8) =~= spec_u16_be(h.keepalive));
    assert(b.subrange(8, 16) =~= spec_u64_be(h.segment_mru));
    assert(b.subrange(16, 24) =~= spec_u64_be(h.transfer_mru));
    assert(b.subrange(24, 26) =~= spec_u16_be(h.eid_len() as u16));
    assert(b.subrange(26, b.len() as int) =~= spec_eid_bytes(h));
}

/// Fixed-length invariant: every encoded header is exactly 26 bytes plus
/// the byte length of its endpoint id.
pub proof fn lemma_encode_length(h: HeaderView)
    ensures
        spec_encode(h).len() == FIXED_LEN + h.eid_len(),
{
    lemma_encode_layout(h);
}

/// Round trip: decoding the encoding of any header the builder can produce
/// yields exactly that header, with the whole encoding consumed.
pub proof fn lemma_round_trip(h: HeaderView)
    requires
        h.wf(),
    ensures
        spec_decode(spec_encode(h)) == (SpecDecoded::Complete {
            header: h,
            consumed: spec_encode(h).len() as int,
        }),
{
    let b = spec_encode(h);
    lemma_encode_layout(h);
    assert(b[24] == spec_u16_be(h.eid_len() as u16)[0] && b[25] == spec_u16_be(
        h.eid_len() as u16,
    )[1]) by {
        assert(b.subrange(24, 26)[0] == b[24] && b.subrange(24, 26)[1] == b[25]);
    }
    lemma_u16_be_round_trip(h.eid_len() as u16);
    let l = spec_u16_from_be(b[24], b[25]) as int;
    assert(l == h.eid_len());
    assert(b[6] == spec_u16_be(h.keepalive)[0] && b[7] == spec_u16_be(h.keepalive)[1]) by {
        assert(b.subrange(6, 8)[0] == b[6] && b.subrange(6, 8)[1] == b[7]);
    }
    lemma_u16_be_round_trip(h.keepalive);
    lemma_u64_be_round_trip(h.segment_mru);
    lemma_u64_be_round_trip(h.transfer_mru);
    assert(b.subrange(26, 26 + l) == spec_eid_bytes(h));
    match h.eid {
        Some(s) => {
            encode_utf8_valid_utf8(s);
            encode_utf8_decode_utf8(s);
        },
        None => {},
    }
    assert(spec_decode(b) is Complete);
    assert(spec_decode(b)->Complete_header =~= h);
}

/// Magic gate: any buffer of at least four bytes whose first four bytes
/// differ from the magic is permanently invalid, whatever follows.
pub proof fn lemma_magic_gate(b: Seq<u8>)
    requires
        b.len() >= 4,
        b.subrange(0, 4) != spec_magic(),
    ensures
        spec_decode(b) == (SpecDecoded::Invalid { err: DecodeError::BadMagic }),
{
}

/// Version gate: correct magic followed by a version byte other than the
/// supported one is permanently invalid, even if the buffer ends right
/// after that byte.
pub proof fn lemma_version_gate(b: Seq<u8>)
    requires
        b.len() >= 5,
        b.subrange(0, 4) == spec_magic(),
        b[4] != PROTOCOL_VERSION,
    ensures
        spec_decode(b) == (SpecDecoded::Invalid { err: DecodeError::UnsupportedVersion }),
{
}

/// Flag strictness: after correct magic and version, a flags byte holding
/// any bit outside the known enumeration is permanently invalid.
pub proof fn lemma_flag_gate(b: Seq<u8>)
    requires
        b.len() >= 6,
        b.subrange(0, 4) == spec_magic(),
        b[4] == PROTOCOL_VERSION,
        !flag_bits_wf(b[5]),
    ensures
        spec_decode(b) == (SpecDecoded::Invalid { err: DecodeError::UnknownFlagBits }),
{
}

/// Incremental decode: every strict prefix of a valid encoded message
/// decodes to `Incomplete` — never to `Invalid`, and never to a premature
/// `Complete`. The shortfall hint is unknown while the fixed part is still
/// arriving, and exactly the number of missing bytes once the endpoint-id
/// length can be read.
pub proof fn lemma_prefix_incomplete(h: HeaderView, n: int)
    requires
        h.wf(),
        0 <= n < spec_encode(h).len(),
    ensures
        spec_decode(spec_encode(h).take(n)) == (SpecDecoded::Incomplete {
            need: if n < FIXED_LEN {
                None
            } else {
                Some(spec_encode(h).len() - n)
            },
        }),
{
    let b = spec_encode(h);
    let p = b.take(n);
    lemma_encode_layout(h);
    assert(p.len() == n);
    if n >= 4 {
        assert(p.subrange(0, 4) =~= spec_magic()) by {
            assert(forall|i: int| 0 <= i < 4 ==> p.subrange(0, 4)[i] == b[i]);
            assert(forall|i: int| 0 <= i < 4 ==> b.subrange(0, 4)[i] == b[i]);
        }
        if n >= 5 {
            assert(p[4] == h.version);
            if n >= 6 {
                assert(p[5] == h.flags);
                if n >= FIXED_LEN {
                    assert(p[24] == b[24] && p[25] == b[25]);
                    assert(b[24] == spec_u16_be(h.eid_len() as u16)[0] && b[25] == spec_u16_be(
                        h.eid_len() as u16,
                    )[1]) by {
                        assert(b.subrange(24, 26)[0] == b[24] && b.subrange(24, 26)[1] == b[25]);
                    }
                    lemma_u16_be_round_trip(h.eid_len() as u16);
                    let l = spec_u16_from_be(p[24], p[25]) as int;
                    assert(l == h.eid_len());
                    assert(p.len() < FIXED_LEN + l);
                }
            }
        }
    }
}

} // verus!
