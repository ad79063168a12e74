use vstd::prelude::*;

verus! {

/// The two big-endian bytes of a 16-bit value, most significant first.
pub open spec fn spec_u16_be(v: u16) -> Seq<u8> {
    seq![(v >> 8) as u8, (v & 0xff) as u8]
}

/// The eight big-endian bytes of a 64-bit value, most significant first.
pub open spec fn spec_u64_be(v: u64) -> Seq<u8> {
    seq![
        ((v >> 56) & 0xff) as u8,
        ((v >> 48) & 0xff) as u8,
        ((v >> 40) & 0xff) as u8,
        ((v >> 32) & 0xff) as u8,
        ((v >> 24) & 0xff) as u8,
        ((v >> 16) & 0xff) as u8,
        ((v >> 8) & 0xff) as u8,
        (v & 0xff) as u8,
    ]
}

/// The 16-bit value carried big-endian by two bytes.
pub open spec fn spec_u16_from_be(b0: u8, b1: u8) -> u16 {
    ((b0 as u16) << 8) | (b1 as u16)
}

/// The 64-bit value carried big-endian by an eight-byte sequence.
pub open spec fn spec_u64_from_be(b: Seq<u8>) -> u64
    recommends
        b.len() == 8,
{
    ((b[0] as u64) << 56) | ((b[1] as u64) << 48) | ((b[2] as u64) << 40) | ((b[3] as u64) << 32)
        | ((b[4] as u64) << 24) | ((b[5] as u64) << 16) | ((b[6] as u64) << 8) | (b[7] as u64)
}

/// Reading back the two big-endian bytes of a 16-bit value gives the value.
pub proof fn lemma_u16_be_round_trip(v: u16)
    ensures
        spec_u16_from_be(spec_u16_be(v)[0], spec_u16_be(v)[1]) == v,
{
    assert((((v >> 8) as u8) as u16) << 8 | (((v & 0xff) as u8) as u16) == v) by (bit_vector);
}

/// Reading back the eight big-endian bytes of a 64-bit value gives the value.
pub proof fn lemma_u64_be_round_trip(v: u64)
    ensures
        spec_u64_from_be(spec_u64_be(v)) == v,
{
    assert(((((v >> 56) & 0xff) as u8) as u64) << 56 | ((((v >> 48) & 0xff) as u8) as u64) << 48
        | ((((v >> 40) & 0xff) as u8) as u64) << 40 | ((((v >> 32) & 0xff) as u8) as u64) << 32
        | ((((v >> 24) & 0xff) as u8) as u64) << 24 | ((((v >> 16) & 0xff) as u8) as u64) << 16
        | ((((v >> 8) & 0xff) as u8) as u64) << 8 | (((v & 0xff) as u8) as u64) == v)
        by (bit_vector);
}

/// Append the two big-endian bytes of a 16-bit value to a byte vector.
pub fn push_u16_be(buf: &mut Vec<u8>, v: u16)
    ensures
        final(buf)@ == old(buf)@ + spec_u16_be(v),
{
    proof {
        assert(v >> 8 < 256 && v & 0xff < 256) by (bit_vector);
    }
    let hi: u8 = (v >> 8) as u8;
    let lo: u8 = (v & 0xff) as u8;
    buf.push(hi);
    buf.push(lo);
    proof {
        assert(buf@ =~= old(buf)@ + spec_u16_be(v));
    }
}

/// Append the eight big-endian bytes of a 64-bit value to a byte vector.
pub fn push_u64_be(buf: &mut Vec<u8>, v: u64)
    ensures
        final(buf)@ == old(buf)@ + spec_u64_be(v),
{
    proof {
        assert((v >> 56) & 0xff < 256 && (v >> 48) & 0xff < 256 && (v >> 40) & 0xff < 256
            && (v >> 32) & 0xff < 256 && (v >> 24) & 0xff < 256 && (v >> 16) & 0xff < 256
            && (v >> 8) & 0xff < 256 && v & 0xff < 256) by (bit_vector);
    }
    buf.push(((v >> 56) & 0xff) as u8);
    buf.push(((v >> 48) & 0xff) as u8);
    buf.push(((v >> 40) & 0xff) as u8);
    buf.push(((v >> 32) & 0xff) as u8);
    buf.push(((v >> 24) & 0xff) as u8);
    buf.push(((v >> 16) & 0xff) as u8);
    buf.push(((v >> 8) & 0xff) as u8);
    buf.push((v & 0xff) as u8);
    proof {
        assert(buf@ =~= old(buf)@ + spec_u64_be(v));
    }
}

/// Read a big-endian 16-bit value from two bytes of a slice.
pub fn read_u16_be(buf: &[u8], off: usize) -> (r: u16)
    requires
        off + 2 <= buf@.len(),
    ensures
        r == spec_u16_from_be(buf@[off as int], buf@[off as int + 1]),
{
    let b0: u8 = buf[off];
    let b1: u8 = buf[off + 1];
    ((b0 as u16) << 8) | (b1 as u16)
}

/// Read a big-endian 64-bit value from eight bytes of a slice.
pub fn read_u64_be(buf: &[u8], off: usize) -> (r: u64)
    requires
        off + 8 <= buf@.len(),
    ensures
        r == spec_u64_from_be(buf@.subrange(off as int, off as int + 8)),
{
    let r: u64 = ((buf[off] as u64) << 56) | ((buf[off + 1] as u64) << 48)
        | ((buf[off + 2] as u64) << 40) | ((buf[off + 3] as u64) << 32)
        | ((buf[off + 4] as u64) << 24) | ((buf[off + 5] as u64) << 16)
        | ((buf[off + 6] as u64) << 8) | (buf[off + 7] as u64);
    proof {
        let s = buf@.subrange(off as int, off as int + 8);
        assert(s[0] == buf@[off as int] && s[1] == buf@[off as int + 1] && s[2] == buf@[off as int
            + 2] && s[3] == buf@[off as int + 3] && s[4] == buf@[off as int + 4] && s[5]
            == buf@[off as int + 5] && s[6] == buf@[off as int + 6] && s[7] == buf@[off as int
            + 7]);
    }
    r
}

} // verus!
