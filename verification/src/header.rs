use crate::codec::{
    spec_decode, spec_encode, spec_magic, string_from_utf8, DecodeResult, IncompleteHint,
    SpecDecoded, FIXED_LEN,
};
use crate::endian::{push_u16_be, push_u64_be, read_u16_be, read_u64_be};
use crate::errors::{BuildError, DecodeError};
use crate::flags::{flag_bits_wf, ContactHeaderFlag, ContactHeaderFlags};
use vstd::prelude::*;
use vstd::slice::{slice_subrange, slice_to_vec};
use vstd::utf8::encode_utf8;

verus! {

/// The single protocol version this library supports.
pub const PROTOCOL_VERSION: u8 = 4;

/// Largest UTF-8 byte length of an endpoint id that the 16-bit length field
/// of the wire format can carry.
pub const MAX_EID_LEN: usize = 65535;

/// Mathematical value of a contact header: exactly the fields that the wire
/// format carries, with the endpoint id as its character sequence.
#[verifier::ext_equal]
pub ghost struct HeaderView {
    pub version: u8,
    pub flags: u8,
    pub keepalive: u16,
    pub segment_mru: u64,
    pub transfer_mru: u64,
    pub eid: Option<Seq<char>>,
}

impl HeaderView {
    /// UTF-8 byte length of the endpoint id; zero when it is absent.
    pub open spec fn eid_len(self) -> int {
        match self.eid {
            Some(s) => encode_utf8(s).len() as int,
            None => 0,
        }
    }

    /// Every header reachable through the builder satisfies this: the single
    /// supported version, no flag bit outside the known enumeration, and an
    /// endpoint id that is absent exactly when its UTF-8 byte length is zero
    /// and otherwise fits the 16-bit length field.
    pub open spec fn wf(self) -> bool {
        &&& self.version == PROTOCOL_VERSION
        &&& flag_bits_wf(self.flags)
        &&& match self.eid {
            Some(s) => 0 < encode_utf8(s).len() <= MAX_EID_LEN,
            None => true,
        }
    }
}

/// A contact header: the first message of a TCP convergence-layer session,
/// negotiating protocol version, capabilities, and receive-size limits.
///
/// A header is built with default values by [`ContactHeader::new`] and then
/// mutated field by field; no reachable mutation can produce a header that
/// violates [`HeaderView::wf`].
#[derive(Debug)]
pub struct ContactHeader {
    pub(crate) version: u8,
    pub(crate) flags: ContactHeaderFlags,
    pub(crate) keepalive: u16,
    pub(crate) segment_mru: u64,
    pub(crate) transfer_mru: u64,
    pub(crate) eid: Option<String>,
}

impl View for ContactHeader {
    type V = HeaderView;

    closed spec fn view(&self) -> HeaderView {
        HeaderView {
            version: self.version,
            flags: self.flags@,
            keepalive: self.keepalive,
            segment_mru: self.segment_mru,
            transfer_mru: self.transfer_mru,
            eid: match self.eid {
                Some(s) => Some(s@),
                None => None,
            },
        }
    }
}

impl ContactHeader {
    /// A fresh header: version 4, empty flags, keepalive disabled, zero
    /// receive limits, no endpoint id.
    pub fn new() -> (r: ContactHeader)
        ensures
            r@ == (HeaderView {
                version: PROTOCOL_VERSION,
                flags: 0u8,
                keepalive: 0u16,
                segment_mru: 0u64,
                transfer_mru: 0u64,
                eid: None,
            }),
            r@.wf(),
    {
        proof {
            assert(flag_bits_wf(0u8)) by (bit_vector);
        }
        ContactHeader {
            version: PROTOCOL_VERSION,
            flags: ContactHeaderFlags::empty(),
            keepalive: 0,
            segment_mru: 0,
            transfer_mru: 0,
            eid: None,
        }
    }

    /// Store an endpoint id, replacing any previous one. An id whose UTF-8
    /// byte length exceeds the 16-bit length field is rejected; an empty id
    /// is indistinguishable on the wire from an absent one and is normalized
    /// to absent.
    pub fn eid(&mut self, eid: &str) -> (r: Result<(), BuildError>)
        ensures
            match r {
                Ok(()) => encode_utf8(eid@).len() <= MAX_EID_LEN && final(self)@ == (HeaderView {
                    eid: if encode_utf8(eid@).len() == 0 {
                        None
                    } else {
                        Some(eid@)
                    },
                    ..old(self)@
                }),
                Err(e) => e == BuildError::EndpointIdTooLong && encode_utf8(eid@).len()
                    > MAX_EID_LEN && final(self)@ == old(self)@,
            },
            old(self)@.wf() ==> final(self)@.wf(),
    {
        let eid_bytes: &[u8] = eid.as_bytes();
        if eid_bytes.len() > MAX_EID_LEN {
            return Err(BuildError::EndpointIdTooLong);
        }
        if eid_bytes.len() == 0 {
            self.eid = None;
        } else {
            self.eid = Some(eid.to_owned());
        }
        Ok(())
    }

    /// Replace the whole flag set.
    pub fn flags(&mut self, flags: ContactHeaderFlags)
        ensures
            final(self)@ == (HeaderView { flags: flags@, ..old(self)@ }),
            old(self)@.wf() && flag_bits_wf(flags@) ==> final(self)@.wf(),
    {
        self.flags = flags;
    }

    /// Set the keepalive interval in seconds; zero disables the mechanism.
    pub fn keepalive(&mut self, keepalive: u16)
        ensures
            final(self)@ == (HeaderView { keepalive, ..old(self)@ }),
            old(self)@.wf() ==> final(self)@.wf(),
    {
        self.keepalive = keepalive;
    }

    /// Set the largest segment size this node is willing to receive.
    pub fn segment_mru(&mut self, segment_mru: u64)
        ensures
            final(self)@ == (HeaderView { segment_mru, ..old(self)@ }),
            old(self)@.wf() ==> final(self)@.wf(),
    {
        self.segment_mru = segment_mru;
    }

    /// Set the largest transfer size this node is willing to receive.
    pub fn transfer_mru(&mut self, transfer_mru: u64)
        ensures
            final(self)@ == (HeaderView { transfer_mru, ..old(self)@ }),
            old(self)@.wf() ==> final(self)@.wf(),
    {
        self.transfer_mru = transfer_mru;
    }

    /// Set a single capability flag; setting an already-set flag changes
    /// nothing.
    pub fn set_flag(&mut self, flag: ContactHeaderFlag)
        ensures
            final(self)@ == (HeaderView {
                flags: old(self)@.flags | flag.spec_mask(),
                ..old(self)@
            }),
            old(self)@.wf() ==> final(self)@.wf(),
    {
        self.flags.insert(flag);
    }

    /// Clear a single capability flag; clearing an already-clear flag
    /// changes nothing.
    pub fn unset_flag(&mut self, flag: ContactHeaderFlag)
        ensures
            final(self)@ == (HeaderView {
                flags: old(self)@.flags & !flag.spec_mask(),
                ..old(self)@
            }),
            old(self)@.wf() ==> final(self)@.wf(),
    {
        self.flags.remove(flag);
    }

    /// Reset the flag set to empty.
    pub fn clear_flags(&mut self)
        ensures
            final(self)@ == (HeaderView { flags: 0u8, ..old(self)@ }),
            old(self)@.wf() ==> final(self)@.wf(),
    {
        proof {
            assert(flag_bits_wf(0u8)) by (bit_vector);
        }
        self.flags = ContactHeaderFlags::empty();
    }

    /// The protocol version carried by this header.
    pub fn get_version(&self) -> (r: u8)
        ensures
            r == self@.version,
    {
        self.version
    }

    /// The capability flag set carried by this header.
    pub fn get_flags(&self) -> (r: ContactHeaderFlags)
        ensures
            r@ == self@.flags,
    {
        self.flags
    }

    /// The keepalive interval in seconds; zero means disabled.
    pub fn get_keepalive(&self) -> (r: u16)
        ensures
            r == self@.keepalive,
    {
        self.keepalive
    }

    /// The largest segment size this node is willing to receive.
    pub fn get_segment_mru(&self) -> (r: u64)
        ensures
            r == self@.segment_mru,
    {
        self.segment_mru
    }

    /// The largest transfer size this node is willing to receive.
    pub fn get_transfer_mru(&self) -> (r: u64)
        ensures
            r == self@.transfer_mru,
    {
        self.transfer_mru
    }

    /// The endpoint id, or `None` when the header carries none.
    pub fn get_eid(&self) -> (r: Option<&str>)
        ensures
            match r {
                Some(s) => self@.eid == Some(s@),
                None => self@.eid is None,
            },
    {
        match &self.eid {
            Some(s) => Some(s.as_str()),
            None => None,
        }
    }

    /// Encode this header into its exact wire bytes: the fixed 26-byte part
    /// followed by the endpoint-id bytes.
    pub fn serialize(&self) -> (r: Vec<u8>)
        requires
            self@.wf(),
        ensures
            r@ == spec_encode(self@),
            r@.len() == FIXED_LEN + self@.eid_len(),
    {
        let eid_len: usize = match &self.eid {
            Some(e) => e.as_str().as_bytes().len(),
            None => 0,
        };
        let mut buf: Vec<u8> = Vec::with_capacity(FIXED_LEN + eid_len);
        buf.push(0x64);
        buf.push(0x74);
        buf.push(0x6e);
        buf.push(0x21);
        buf.push(self.version);
        buf.push(self.flags.bits());
        push_u16_be(&mut buf, self.keepalive);
        push_u64_be(&mut buf, self.segment_mru);
        push_u64_be(&mut buf, self.transfer_mru);
        push_u16_be(&mut buf, eid_len as u16);
        match &self.eid {
            Some(e) => append_bytes(&mut buf, e.as_str().as_bytes()),
            None => (),
        }
        proof {
            assert(buf@ =~= spec_encode(self@));
        }
        buf
    }

    /// Attempt to decode a contact header from a prefix of `input`, which
    /// may hold a complete message, trailing unrelated bytes after one, or
    /// only a truncated prefix of one. The input is never consumed: on
    /// [`DecodeResult::Incomplete`] the caller buffers more bytes and
    /// decodes again from the start of the same message.
    pub fn deserialize(input: &[u8]) -> (r: DecodeResult)
        ensures
            match r {
                DecodeResult::Complete(h, n) => h@.wf() && spec_decode(input@)
                    == (SpecDecoded::Complete { header: h@, consumed: n as int }),
                DecodeResult::Incomplete(hint) => spec_decode(input@)
                    == (SpecDecoded::Incomplete {
                    need: match hint {
                        IncompleteHint::Unknown => None,
                        IncompleteHint::Need(k) => Some(k as int),
                    },
                }),
                DecodeResult::Invalid(e) => spec_decode(input@) == (SpecDecoded::Invalid {
                    err: e,
                }),
            },
    {
        if input.len() < 4 {
            return DecodeResult::Incomplete(IncompleteHint::Unknown);
        }
        proof {
            assert(input@.subrange(0, 4)[0] == input@[0]);
            assert(input@.subrange(0, 4)[1] == input@[1]);
            assert(input@.subrange(0, 4)[2] == input@[2]);
            assert(input@.subrange(0, 4)[3] == input@[3]);
        }
        if !(input[0] == 0x64 && input[1] == 0x74 && input[2] == 0x6e && input[3] == 0x21) {
            return DecodeResult::Invalid(DecodeError::BadMagic);
        }
        proof {
            assert(input@.subrange(0, 4) =~= spec_magic());
        }
        if input.len() < 5 {
            return DecodeResult::Incomplete(IncompleteHint::Unknown);
        }
        if input[4] != PROTOCOL_VERSION {
            return DecodeResult::Invalid(DecodeError::UnsupportedVersion);
        }
        if input.len() < 6 {
            return DecodeResult::Incomplete(IncompleteHint::Unknown);
        }
        let flags = match ContactHeaderFlags::from_bits_strict(input[5]) {
            Ok(f) => f,
            Err(e) => {
                return DecodeResult::Invalid(e);
            },
        };
        if input.len() < FIXED_LEN {
            return DecodeResult::Incomplete(IncompleteHint::Unknown);
        }
        let keepalive = read_u16_be(input, 6);
        let segment_mru = read_u64_be(input, 8);
        let transfer_mru = read_u64_be(input, 16);
        let l = read_u16_be(input, 24) as usize;
        if input.len() < FIXED_LEN + l {
            return DecodeResult::Incomplete(IncompleteHint::Need(FIXED_LEN + l - input.len()));
        }
        let eid: Option<String>;
        if l == 0 {
            eid = None;
        } else {
            let eid_slice = slice_subrange(input, FIXED_LEN, FIXED_LEN + l);
            let eid_vec = slice_to_vec(eid_slice);
            match string_from_utf8(eid_vec) {
                Some(s) => {
                    proof {
                        broadcast use vstd::utf8::encode_utf8_decode_utf8;
                    }
                    eid = Some(s);
                },
                None => {
                    return DecodeResult::Invalid(DecodeError::EndpointIdNotUtf8);
                },
            }
        }
        let header = ContactHeader {
            version: PROTOCOL_VERSION,
            flags,
            keepalive,
            segment_mru,
            transfer_mru,
            eid,
        };
        DecodeResult::Complete(header, FIXED_LEN + l)
    }
}

/// Append every byte of `b` to `buf`, in order.
fn append_bytes(buf: &mut Vec<u8>, b: &[u8])
    ensures
        final(buf)@ == old(buf)@ + b@,
{
    let mut i: usize = 0;
    while i < b.len()
        invariant
            i <= b@.len(),
            buf@ == old(buf)@ + b@.subrange(0, i as int),
        decreases b@.len() - i,
    {
        buf.push(b[i]);
        i = i + 1;
        proof {
            assert(buf@ =~= old(buf)@ + b@.subrange(0, i as int));
        }
    }
    proof {
        assert(old(buf)@ + b@.subrange(0, i as int) =~= old(buf)@ + b@);
    }
}

} // verus!
