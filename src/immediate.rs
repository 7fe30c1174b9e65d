//! Fixed-width immediates and the reinterpretation between the unsigned and
//! signed views of a 32-bit pattern.

use vstd::prelude::*;

verus! {

/// The value of a 12-bit field read as a two's complement number.
pub open spec fn sext12(v: int) -> int {
    if v >= 0x800 {
        v - 0x1000
    } else {
        v
    }
}

/// The value of a 20-bit field read as a two's complement number.
pub open spec fn sext20(v: int) -> int {
    if v >= 0x8_0000 {
        v - 0x10_0000
    } else {
        v
    }
}

/// The signed reading of a 32-bit pattern.
pub open spec fn signed32(v: u32) -> int {
    if v >= 0x8000_0000 {
        v - 0x1_0000_0000
    } else {
        v as int
    }
}

/// Reads a 32-bit pattern as a signed number.
pub fn transmute_to_signed(unsigned: u32) -> (r: i32)
    ensures
        r == signed32(unsigned),
{
    if unsigned >= 0x8000_0000 {
        ((unsigned - 0x8000_0000) as i32) - 0x4000_0000 - 0x4000_0000
    } else {
        unsigned as i32
    }
}

/// Writes a signed number as its 32-bit two's complement pattern.
pub fn transmute_to_unsigned(signed: i32) -> (r: u32)
    ensures
        signed32(r) == signed,
        r == (if signed < 0 { signed + 0x1_0000_0000 } else { signed as int }),
{
    if signed < 0 {
        ((signed + 0x4000_0000 + 0x4000_0000) as u32) + 0x8000_0000
    } else {
        signed as u32
    }
}

/// A 12-bit immediate field, held as its raw unsigned bits.
#[derive(Clone, Copy, Debug, PartialEq, Eq, Structural)]
pub struct SmallImmediate {
    pub val: u32,
}

/// A 20-bit immediate field, held as its raw unsigned bits.
#[derive(Clone, Copy, Debug, PartialEq, Eq, Structural)]
pub struct BigImmediate {
    pub val: u32,
}

impl SmallImmediate {
    /// The field fits in 12 bits.
    pub open spec fn wf(&self) -> bool {
        self.val < 0x1000
    }

    /// The signed value of the field: bit 11 is copied into all higher bits.
    pub fn sign_extend(&self) -> (r: i32)
        requires
            self.wf(),
        ensures
            r == sext12(self.val as int),
    {
        if self.val >= 0x800 {
            self.val as i32 - 0x1000
        } else {
            self.val as i32
        }
    }

    /// The field zero-extended to 32 bits.
    pub fn unsigned(&self) -> (r: u32)
        ensures
            r == self.val,
    {
        self.val
    }
}

impl BigImmediate {
    /// The field fits in 20 bits.
    pub open spec fn wf(&self) -> bool {
        self.val < 0x10_0000
    }

    /// The signed value of the field: bit 19 is copied into all higher bits.
    pub fn sign_extend(&self) -> (r: i32)
        requires
            self.wf(),
        ensures
            r == sext20(self.val as int),
    {
        if self.val >= 0x8_0000 {
            self.val as i32 - 0x10_0000
        } else {
            self.val as i32
        }
    }

    /// The field zero-extended to 32 bits.
    pub fn unsigned(&self) -> (r: u32)
        ensures
            r == self.val,
    {
        self.val
    }
}

impl From<u32> for SmallImmediate {
    fn from(value: u32) -> (r: Self)
        ensures
            r.val == value,
    {
        SmallImmediate { val: value }
    }
}

impl vstd::std_specs::convert::FromSpecImpl<u32> for SmallImmediate {
    open spec fn obeys_from_spec() -> bool {
        true
    }

    open spec fn from_spec(v: u32) -> Self {
        SmallImmediate { val: v }
    }
}

impl From<u32> for BigImmediate {
    fn from(value: u32) -> (r: Self)
        ensures
            r.val == value,
    {
        BigImmediate { val: value }
    }
}

impl vstd::std_specs::convert::FromSpecImpl<u32> for BigImmediate {
    open spec fn obeys_from_spec() -> bool {
        true
    }

    open spec fn from_spec(v: u32) -> Self {
        BigImmediate { val: v }
    }
}

} // verus!
