//! Integer types whose range is exactly that of a register field: unsigned
//! integers narrower than a byte, and integers that may not be zero.
use vstd::prelude::*;

verus! {

/// An unsigned 2-bit integer.
#[derive(Clone, Copy, Debug, PartialEq, Eq, Structural)]
pub struct U2(u8);

/// An unsigned 3-bit integer.
#[derive(Clone, Copy, Debug, PartialEq, Eq, Structural)]
pub struct U3(u8);

/// An unsigned 6-bit integer.
#[derive(Clone, Copy, Debug, PartialEq, Eq, Structural)]
pub struct U6(u8);

impl View for U2 {
    type V = u8;

    closed spec fn view(&self) -> u8 {
        self.0
    }
}

impl View for U3 {
    type V = u8;

    closed spec fn view(&self) -> u8 {
        self.0
    }
}

impl View for U6 {
    type V = u8;

    closed spec fn view(&self) -> u8 {
        self.0
    }
}

impl U2 {
    #[verifier::type_invariant]
    spec fn fits(self) -> bool {
        self.0 < 4
    }

    /// The value `v`, if it fits in two bits.
    pub fn new(v: u8) -> (r: Option<U2>)
        ensures
            r is Some <==> v < 4,
            r matches Some(x) ==> x@ == v,
    {
        if v < 4 {
            Some(U2(v))
        } else {
            None
        }
    }

    /// The low two bits of `v`.
    pub fn trimmed_new(v: u8) -> (r: U2)
        ensures
            r@ == v % 4,
    {
        assert(v & 3 == v % 4) by (bit_vector);
        U2(v & 3)
    }

    /// The value as a byte.
    pub fn value(self) -> (r: u8)
        ensures
            r == self@,
            r < 4,
    {
        proof {
            use_type_invariant(self);
        }
        self.0
    }
}

impl U3 {
    #[verifier::type_invariant]
    spec fn fits(self) -> bool {
        self.0 < 8
    }

    /// The value `v`, if it fits in three bits.
    pub fn new(v: u8) -> (r: Option<U3>)
        ensures
            r is Some <==> v < 8,
            r matches Some(x) ==> x@ == v,
    {
        if v < 8 {
            Some(U3(v))
        } else {
            None
        }
    }

    /// The low three bits of `v`.
    pub fn trimmed_new(v: u8) -> (r: U3)
        ensures
            r@ == v % 8,
    {
        assert(v & 7 == v % 8) by (bit_vector);
        U3(v & 7)
    }

    /// The value as a byte.
    pub fn value(self) -> (r: u8)
        ensures
            r == self@,
            r < 8,
    {
        proof {
            use_type_invariant(self);
        }
        self.0
    }
}

impl U6 {
    #[verifier::type_invariant]
    spec fn fits(self) -> bool {
        self.0 < 64
    }

    /// The value `v`, if it fits in six bits.
    pub fn new(v: u8) -> (r: Option<U6>)
        ensures
            r is Some <==> v < 64,
            r matches Some(x) ==> x@ == v,
    {
        if v < 64 {
            Some(U6(v))
        } else {
            None
        }
    }

    /// The low six bits of `v`.
    pub fn trimmed_new(v: u8) -> (r: U6)
        ensures
            r@ == v % 64,
    {
        assert(v & 63 == v % 64) by (bit_vector);
        U6(v & 63)
    }

    /// The value as a byte.
    pub fn value(self) -> (r: u8)
        ensures
            r == self@,
            r < 64,
    {
        proof {
            use_type_invariant(self);
        }
        self.0
    }
}

/// A `u8` that is known not to be zero.
#[derive(Clone, Copy, Debug, PartialEq, Eq, Structural)]
pub struct NonZeroU8(u8);

/// A `u16` that is known not to be zero.
#[derive(Clone, Copy, Debug, PartialEq, Eq, Structural)]
pub struct NonZeroU16(u16);

impl View for NonZeroU8 {
    type V = u8;

    closed spec fn view(&self) -> u8 {
        self.0
    }
}

impl View for NonZeroU16 {
    type V = u16;

    closed spec fn view(&self) -> u16 {
        self.0
    }
}

impl NonZeroU8 {
    #[verifier::type_invariant]
    spec fn non_zero(self) -> bool {
        self.0 != 0
    }

    /// The value `v`, unless it is zero.
    pub fn new(v: u8) -> (r: Option<NonZeroU8>)
        ensures
            r is Some <==> v != 0,
            r matches Some(x) ==> x@ == v,
    {
        if v != 0 {
            Some(NonZeroU8(v))
        } else {
            None
        }
    }

    /// The value as a plain integer.
    pub fn get(self) -> (r: u8)
        ensures
            r == self@,
            r != 0,
    {
        proof {
            use_type_invariant(self);
        }
        self.0
    }

    /// Decodes an 8-bit pattern; the reserved pattern zero is handed back.
    pub fn try_from_bits(bits: u8) -> (r: Result<NonZeroU8, u8>)
        ensures
            r is Ok <==> bits != 0,
            r matches Ok(x) ==> x@ == bits,
            r matches Err(e) ==> e == bits,
    {
        match NonZeroU8::new(bits) {
            Some(x) => Ok(x),
            None => Err(bits),
        }
    }
}

impl NonZeroU16 {
    #[verifier::type_invariant]
    spec fn non_zero(self) -> bool {
        self.0 != 0
    }

    /// The value `v`, unless it is zero.
    pub fn new(v: u16) -> (r: Option<NonZeroU16>)
        ensures
            r is Some <==> v != 0,
            r matches Some(x) ==> x@ == v,
    {
        if v != 0 {
            Some(NonZeroU16(v))
        } else {
            None
        }
    }

    /// The value as a plain integer.
    pub fn get(self) -> (r: u16)
        ensures
            r == self@,
            r != 0,
    {
        proof {
            use_type_invariant(self);
        }
        self.0
    }

    /// Decodes a 16-bit pattern; the reserved pattern zero is handed back.
    pub fn try_from_bits(bits: u16) -> (r: Result<NonZeroU16, u16>)
        ensures
            r is Ok <==> bits != 0,
            r matches Ok(x) ==> x@ == bits,
            r matches Err(e) ==> e == bits,
    {
        match NonZeroU16::new(bits) {
            Some(x) => Ok(x),
            None => Err(bits),
        }
    }
}

} // verus!
