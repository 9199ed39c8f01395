use vstd::prelude::*;

verus! {

/// A 256-bit value held as two 128-bit limbs, the form the proving engine's
/// cells take.
#[derive(Clone, Copy, Debug, PartialEq, Eq, Structural)]
pub struct Word {
    pub lo: u128,
    pub hi: u128,
}

/// A 160-bit account address: the low 128 bits and the high 32 bits.
#[derive(Clone, Copy, Debug, PartialEq, Eq, Structural)]
pub struct Address {
    pub lo: u128,
    pub hi: u32,
}

/// The word of a small value: the value in the low limb, zero in the high one.
pub open spec fn small_word(v: nat) -> Word {
    Word { lo: v as u128, hi: 0 }
}

pub open spec fn zero_word() -> Word {
    Word { lo: 0, hi: 0 }
}

pub open spec fn address_word(a: Address) -> Word {
    Word { lo: a.lo, hi: a.hi as u128 }
}

impl Word {
    pub fn new(lo: u128, hi: u128) -> (r: Word)
        ensures
            r == (Word { lo, hi }),
    {
        Word { lo, hi }
    }

    pub fn zero() -> (r: Word)
        ensures
            r == zero_word(),
    {
        Word { lo: 0, hi: 0 }
    }

    pub fn from_u64(v: u64) -> (r: Word)
        ensures
            r == small_word(v as nat),
    {
        Word { lo: v as u128, hi: 0 }
    }

    pub fn from_address(a: Address) -> (r: Word)
        ensures
            r == address_word(a),
    {
        Word { lo: a.lo, hi: a.hi as u128 }
    }
}

impl Address {
    pub fn new(lo: u128, hi: u32) -> (r: Address)
        ensures
            r == (Address { lo, hi }),
    {
        Address { lo, hi }
    }

    pub fn zero() -> (r: Address)
        ensures
            r == (Address { lo: 0, hi: 0 }),
    {
        Address { lo: 0, hi: 0 }
    }
}

} // verus!
