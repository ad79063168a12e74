use crate::errors::DecodeError;
use vstd::prelude::*;

verus! {

/// All flag bits a conforming contact header may carry on the wire.
pub const KNOWN_FLAG_BITS: u8 = 0x01;

/// One capability defined for contact headers, named by its bit position.
#[derive(Clone, Copy, Debug, PartialEq, Eq, Structural)]
pub enum ContactHeaderFlag {
    /// The sending node is able to secure the session with TLS (bit 0).
    CanTls,
}

impl ContactHeaderFlag {
    /// Bit mask of this capability inside the wire flags byte.
    pub open spec fn spec_mask(self) -> u8 {
        match self {
            ContactHeaderFlag::CanTls => 0x01,
        }
    }

    /// Bit mask of this capability inside the wire flags byte.
    pub fn mask(self) -> (r: u8)
        ensures
            r == self.spec_mask(),
    {
        match self {
            ContactHeaderFlag::CanTls => 0x01,
        }
    }
}

/// True when a wire flags byte holds no bit outside the known enumeration.
pub open spec fn flag_bits_wf(bits: u8) -> bool {
    bits & !KNOWN_FLAG_BITS == 0
}

/// A set of capability flags, backed by the bit field that appears on the
/// wire. Only named-bit operations are exposed, so a value of this type can
/// never hold a bit outside the known enumeration.
#[derive(Clone, Copy, Debug, PartialEq, Eq, Structural)]
pub struct ContactHeaderFlags {
    bits: u8,
}

impl View for ContactHeaderFlags {
    type V = u8;

    closed spec fn view(&self) -> u8 {
        self.bits
    }
}

impl ContactHeaderFlags {
    /// The empty flag set.
    pub fn empty() -> (r: ContactHeaderFlags)
        ensures
            r@ == 0u8,
            flag_bits_wf(r@),
    {
        proof {
            assert(flag_bits_wf(0u8)) by (bit_vector);
        }
        ContactHeaderFlags { bits: 0 }
    }

    /// The flag set holding exactly the given capability.
    pub fn single(flag: ContactHeaderFlag) -> (r: ContactHeaderFlags)
        ensures
            r@ == flag.spec_mask(),
            flag_bits_wf(r@),
    {
        proof {
            assert(flag_bits_wf(flag.spec_mask())) by (bit_vector);
        }
        ContactHeaderFlags { bits: flag.mask() }
    }

    /// The raw bit field as it appears on the wire.
    pub fn bits(&self) -> (r: u8)
        ensures
            r == self@,
    {
        self.bits
    }

    /// Whether the given capability is present in the set.
    pub fn contains(&self, flag: ContactHeaderFlag) -> (r: bool)
        ensures
            r == (self@ & flag.spec_mask() != 0),
    {
        self.bits & flag.mask() != 0
    }

    /// Add one capability to the set; adding a capability that is already
    /// present changes nothing.
    pub fn insert(&mut self, flag: ContactHeaderFlag)
        ensures
            final(self)@ == old(self)@ | flag.spec_mask(),
            flag_bits_wf(old(self)@) ==> flag_bits_wf(final(self)@),
    {
        proof {
            let b = self.bits;
            let m = flag.spec_mask();
            assert(b & !KNOWN_FLAG_BITS == 0 && m == 1 ==> (b | m) & !KNOWN_FLAG_BITS == 0)
                by (bit_vector);
        }
        self.bits = self.bits | flag.mask();
    }

    /// Remove one capability from the set; removing a capability that is
    /// absent changes nothing.
    pub fn remove(&mut self, flag: ContactHeaderFlag)
        ensures
            final(self)@ == old(self)@ & !flag.spec_mask(),
            flag_bits_wf(old(self)@) ==> flag_bits_wf(final(self)@),
    {
        proof {
            let b = self.bits;
            let m = flag.spec_mask();
            assert(b & !KNOWN_FLAG_BITS == 0 && m == 1 ==> (b & !m) & !KNOWN_FLAG_BITS == 0)
                by (bit_vector);
        }
        self.bits = self.bits & !flag.mask();
    }

    /// Parse a wire flags byte, rejecting any bit outside the known
    /// enumeration.
    pub fn from_bits_strict(bits: u8) -> (r: Result<ContactHeaderFlags, DecodeError>)
        ensures
            match r {
                Ok(f) => flag_bits_wf(bits) && f@ == bits,
                Err(e) => !flag_bits_wf(bits) && e == DecodeError::UnknownFlagBits,
            },
    {
        if bits & !KNOWN_FLAG_BITS == 0 {
            Ok(ContactHeaderFlags { bits })
        } else {
            Err(DecodeError::UnknownFlagBits)
        }
    }
}

} // verus!
