//! Integers of any size.
//!
//! The view of a number is the mathematical integer.

use crate::eth::big_endian::{be_bytes, be_value};
use crate::eth::num_bytes::{
    bigint_bits, bigint_div_u32, bigint_eq, bigint_from_bytes_be, bigint_from_u64, bigint_mul,
    bigint_sub_assign, bigint_sub_u32, bigint_to_bytes_be, bigint_to_u64, biguint_add_u64,
    biguint_from_u64, biguint_mul_u64, biguint_to_bytes_be,
};
use crate::eth::num_bytes::{magnitude, quotient, sign_of, signed, twos_complement_value, Sign};
use vstd::arithmetic::power2::pow2;
use vstd::prelude::*;

verus! {

/// A natural number of any size.
#[derive(Debug)]
pub struct BigUint {
    /// Most significant byte first.
    bytes: Vec<u8>,
}

impl View for BigUint {
    type V = nat;

    closed spec fn view(&self) -> nat {
        be_value(self.bytes@)
    }
}

impl BigUint {
    /// The number `n`.
    pub fn from_u64(n: u64) -> (r: BigUint)
        ensures
            r@ == n,
    {
        BigUint { bytes: biguint_from_u64(n) }
    }

    /// This number times `n`.
    pub fn mul_u64(&self, n: u64) -> (r: BigUint)
        ensures
            r@ == self@ * n,
    {
        BigUint { bytes: biguint_mul_u64(self.bytes.as_slice(), n) }
    }

    /// This number plus `n`.
    pub fn add_u64(&self, n: u64) -> (r: BigUint)
        ensures
            r@ == self@ + n,
    {
        BigUint { bytes: biguint_add_u64(self.bytes.as_slice(), n) }
    }

    /// The shortest big-endian bytes of this number; a single zero byte for zero.
    pub fn to_bytes_be(&self) -> (r: Vec<u8>)
        ensures
            r@ == be_bytes(self@),
    {
        biguint_to_bytes_be(self.bytes.as_slice())
    }
}

/// An integer of any size.
#[derive(Debug)]
pub struct BigInt {
    /// Two's complement, most significant byte first.
    bytes: Vec<u8>,
}

impl View for BigInt {
    type V = int;

    closed spec fn view(&self) -> int {
        twos_complement_value(self.bytes@)
    }
}

impl BigInt {
    /// The number `n`.
    pub fn from_u64(n: u64) -> (r: BigInt)
        ensures
            r@ == n,
    {
        BigInt { bytes: bigint_from_u64(n) }
    }

    /// The number with sign `sign` whose magnitude `bytes` spell, most significant byte first; zero
    /// where there is no sign.
    pub fn from_bytes_be(sign: Sign, bytes: &[u8]) -> (r: BigInt)
        ensures
            r@ == signed(sign, be_value(bytes@)),
    {
        BigInt { bytes: bigint_from_bytes_be(sign, bytes) }
    }

    /// The sign of this number and the shortest big-endian bytes of its magnitude; a single zero
    /// byte for zero.
    pub fn to_bytes_be(&self) -> (r: (Sign, Vec<u8>))
        ensures
            r.0 == sign_of(self@),
            r.1@ == be_bytes(magnitude(self@)),
    {
        bigint_to_bytes_be(self.bytes.as_slice())
    }

    /// The fewest bits that hold the magnitude of this number.
    pub fn bits(&self) -> (r: u64)
        ensures
            magnitude(self@) < pow2(r as nat),
            r > 0 ==> pow2((r - 1) as nat) <= magnitude(self@),
    {
        bigint_bits(self.bytes.as_slice())
    }

    /// This number, where a `u64` holds it.
    pub fn to_u64(&self) -> (r: Option<u64>)
        ensures
            r == (if 0 <= self@ <= u64::MAX {
                Some(self@ as u64)
            } else {
                None
            }),
    {
        bigint_to_u64(self.bytes.as_slice())
    }

    /// The product of two numbers.
    pub fn times(&self, other: &BigInt) -> (r: BigInt)
        ensures
            r@ == self@ * other@,
    {
        BigInt { bytes: bigint_mul(self.bytes.as_slice(), other.bytes.as_slice()) }
    }

    /// Takes `other` away from this number.
    pub fn subtract(&mut self, other: &BigInt)
        ensures
            final(self)@ == old(self)@ - other@,
    {
        self.bytes = bigint_sub_assign(self.bytes.as_slice(), other.bytes.as_slice());
    }

    /// This number less `n`.
    pub fn sub_u32(&self, n: u32) -> (r: BigInt)
        ensures
            r@ == self@ - n,
    {
        BigInt { bytes: bigint_sub_u32(self.bytes.as_slice(), n) }
    }

    /// This number over `n`, rounded toward zero.
    pub fn div_u32(&self, n: u32) -> (r: BigInt)
        requires
            n != 0,
        ensures
            r@ == quotient(self@, n as nat),
    {
        BigInt { bytes: bigint_div_u32(self.bytes.as_slice(), n) }
    }
}

impl PartialEq for BigInt {
    fn eq(&self, other: &BigInt) -> (r: bool) {
        bigint_eq(self.bytes.as_slice(), other.bytes.as_slice())
    }
}

impl vstd::std_specs::cmp::PartialEqSpecImpl for BigInt {
    open spec fn obeys_eq_spec() -> bool {
        true
    }

    open spec fn eq_spec(&self, other: &BigInt) -> bool {
        self@ == other@
    }
}

impl Eq for BigInt {

}

impl Clone for BigInt {
    fn clone(&self) -> (r: BigInt)
        ensures
            r@ == self@,
    {
        BigInt { bytes: self.bytes.clone() }
    }
}

impl Default for BigInt {
    fn default() -> (r: BigInt)
        ensures
            r@ == 0,
    {
        BigInt { bytes: Vec::new() }
    }
}

} // verus!
