//! Field-element values as they appear on the wire and in the node's own
//! transaction model.
//!
//! A felt stands for an unsigned 252-bit field element.  The sync logic never
//! computes with felts; it only moves them around and reads bounded integers
//! out of them.  The value is therefore held as a plain 256-bit unsigned
//! integer split into a low and a high 128-bit half.

use vstd::prelude::*;

verus! {

/// A field-element value, held as `lo + hi * 2^128`.
#[derive(Clone, Copy, Debug, PartialEq, Eq, Hash, Structural)]
pub struct Felt {
    pub lo: u128,
    pub hi: u128,
}

impl Felt {
    /// The mathematical value of the felt.
    pub open spec fn value(self) -> int {
        self.lo + self.hi * 0x1_0000_0000_0000_0000_0000_0000_0000_0000
    }

    /// The zero felt.
    pub fn zero() -> (r: Felt)
        ensures
            r == (Felt { lo: 0, hi: 0 }),
            r.value() == 0,
    {
        Felt { lo: 0, hi: 0 }
    }

    pub fn from_u64(n: u64) -> (r: Felt)
        ensures
            r == (Felt { lo: n as u128, hi: 0 }),
            r.value() == n,
    {
        Felt { lo: n as u128, hi: 0 }
    }

    pub fn from_u128(n: u128) -> (r: Felt)
        ensures
            r == (Felt { lo: n, hi: 0 }),
            r.value() == n,
    {
        Felt { lo: n, hi: 0 }
    }

    pub fn is_zero(&self) -> (r: bool)
        ensures
            r == (self.value() == 0),
    {
        proof {
            if self.hi != 0 {
                assert(self.value() != 0) by (nonlinear_arith)
                    requires
                        self.hi >= 1,
                        self.lo >= 0,
                        self.value() == self.lo + self.hi
                            * 0x1_0000_0000_0000_0000_0000_0000_0000_0000,
                ;
            }
        }
        self.lo == 0 && self.hi == 0
    }
}

/// Whether the felt's value fits in a `u64`.
pub open spec fn fits_u64(f: Felt) -> bool {
    f.hi == 0 && f.lo <= u64::MAX
}

/// Whether the felt's value fits in a `u32`.
pub open spec fn fits_u32(f: Felt) -> bool {
    f.hi == 0 && f.lo <= u32::MAX
}

/// Whether the felt's value fits in a `u128`.
pub open spec fn fits_u128(f: Felt) -> bool {
    f.hi == 0
}

/// Reads the felt as a `u64`; fails exactly when the value is out of range.
pub fn felt_to_u64(f: &Felt) -> (r: Result<u64, ()>)
    ensures
        r matches Ok(n) ==> fits_u64(*f) && n == f.lo,
        r is Err <==> !fits_u64(*f),
{
    if f.hi == 0 && f.lo <= u64::MAX as u128 {
        Ok(f.lo as u64)
    } else {
        Err(())
    }
}

/// Reads the felt as a `u32`; fails exactly when the value is out of range.
pub fn felt_to_u32(f: &Felt) -> (r: Result<u32, ()>)
    ensures
        r matches Ok(n) ==> fits_u32(*f) && n == f.lo,
        r is Err <==> !fits_u32(*f),
{
    if f.hi == 0 && f.lo <= u32::MAX as u128 {
        Ok(f.lo as u32)
    } else {
        Err(())
    }
}

/// Reads the felt as a `u128`; fails exactly when the value is out of range.
pub fn felt_to_u128(f: &Felt) -> (r: Result<u128, ()>)
    ensures
        r matches Ok(n) ==> fits_u128(*f) && n == f.lo,
        r is Err <==> !fits_u128(*f),
{
    if f.hi == 0 {
        Ok(f.lo)
    } else {
        Err(())
    }
}

} // verus!
