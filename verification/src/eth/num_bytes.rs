//! The arithmetic of `num_bigint` on numbers that are held as bytes.
//!
//! A natural number is held as its big-endian bytes, an integer as its big-endian bytes in two's
//! complement. Any such byte string stands for a number, whatever it starts with.

use crate::eth::big_endian::{be_bytes, be_value};
use num_traits::ToPrimitive;
use vstd::arithmetic::power::pow;
use vstd::arithmetic::power2::pow2;
use vstd::prelude::*;

verus! {

/// The sign of an integer.
#[derive(Debug, Clone, Copy, PartialEq, Eq, Structural)]
pub enum Sign {
    Minus,
    NoSign,
    Plus,
}

/// The sign of `n`.
pub open spec fn sign_of(n: int) -> Sign {
    if n < 0 {
        Sign::Minus
    } else if n == 0 {
        Sign::NoSign
    } else {
        Sign::Plus
    }
}

/// The number with sign `sign` and magnitude `magnitude`: zero where there is no sign.
pub open spec fn signed(sign: Sign, magnitude: nat) -> int {
    match sign {
        Sign::Minus => -(magnitude as int),
        Sign::NoSign => 0,
        Sign::Plus => magnitude as int,
    }
}

/// The absolute value of `n`.
pub open spec fn magnitude(n: int) -> nat {
    if n < 0 {
        (-n) as nat
    } else {
        n as nat
    }
}

/// `n` over `d`, rounded toward zero.
pub open spec fn quotient(n: int, d: nat) -> int {
    if n < 0 {
        -((-n) / (d as int))
    } else {
        n / (d as int)
    }
}

/// The number that `bytes` spell in two's complement, most significant byte first.
pub open spec fn twos_complement_value(bytes: Seq<u8>) -> int {
    if bytes.len() > 0 && bytes[0] >= 0x80 {
        be_value(bytes) - pow(256, bytes.len())
    } else {
        be_value(bytes) as int
    }
}

/// Calls `From<u64>` of `num_bigint::BigUint`: the number `n`.
#[verifier::external_body]
pub(crate) fn biguint_from_u64(n: u64) -> (r: Vec<u8>)
    ensures
        be_value(r@) == n,
{
    num_bigint::BigUint::from(n).to_bytes_be()
}

/// Calls `Mul<u64>` of `num_bigint::BigUint`: the product.
#[verifier::external_body]
pub(crate) fn biguint_mul_u64(a: &[u8], n: u64) -> (r: Vec<u8>)
    ensures
        be_value(r@) == be_value(a@) * n,
{
    (num_bigint::BigUint::from_bytes_be(a) * n).to_bytes_be()
}

/// Calls `Add<u64>` of `num_bigint::BigUint`: the sum.
#[verifier::external_body]
pub(crate) fn biguint_add_u64(a: &[u8], n: u64) -> (r: Vec<u8>)
    ensures
        be_value(r@) == be_value(a@) + n,
{
    (num_bigint::BigUint::from_bytes_be(a) + n).to_bytes_be()
}

/// Calls `num_bigint::BigUint::to_bytes_be`: the shortest big-endian bytes of the number, and a
/// single zero byte for zero.
#[verifier::external_body]
pub(crate) fn biguint_to_bytes_be(a: &[u8]) -> (r: Vec<u8>)
    ensures
        r@ == be_bytes(be_value(a@)),
{
    num_bigint::BigUint::from_bytes_be(a).to_bytes_be()
}

/// Calls `From<u64>` of `num_bigint::BigInt`: the number `n`.
#[verifier::external_body]
pub(crate) fn bigint_from_u64(n: u64) -> (r: Vec<u8>)
    ensures
        twos_complement_value(r@) == n,
{
    num_bigint::BigInt::from(n).to_signed_bytes_be()
}

/// Calls `num_bigint::BigInt::from_bytes_be`: the number with sign `sign` whose magnitude `bytes`
/// spell, and zero where there is no sign.
#[verifier::external_body]
pub(crate) fn bigint_from_bytes_be(sign: Sign, bytes: &[u8]) -> (r: Vec<u8>)
    ensures
        twos_complement_value(r@) == signed(sign, be_value(bytes@)),
{
    let sign = match sign {
        Sign::Minus => num_bigint::Sign::Minus,
        Sign::NoSign => num_bigint::Sign::NoSign,
        Sign::Plus => num_bigint::Sign::Plus,
    };
    num_bigint::BigInt::from_bytes_be(sign, bytes).to_signed_bytes_be()
}

/// Calls `num_bigint::BigInt::to_bytes_be`: the sign, and the shortest big-endian bytes of the
/// magnitude, a single zero byte for zero.
#[verifier::external_body]
pub(crate) fn bigint_to_bytes_be(a: &[u8]) -> (r: (Sign, Vec<u8>))
    ensures
        r.0 == sign_of(twos_complement_value(a@)),
        r.1@ == be_bytes(magnitude(twos_complement_value(a@))),
{
    let (sign, bytes) = num_bigint::BigInt::from_signed_bytes_be(a).to_bytes_be();
    let sign = match sign {
        num_bigint::Sign::Minus => Sign::Minus,
        num_bigint::Sign::NoSign => Sign::NoSign,
        num_bigint::Sign::Plus => Sign::Plus,
    };
    (sign, bytes)
}

/// Calls `num_bigint::BigInt::bits`: the fewest bits that hold the magnitude.
#[verifier::external_body]
pub(crate) fn bigint_bits(a: &[u8]) -> (r: u64)
    ensures
        magnitude(twos_complement_value(a@)) < pow2(r as nat),
        r > 0 ==> pow2((r - 1) as nat) <= magnitude(twos_complement_value(a@)),
{
    num_bigint::BigInt::from_signed_bytes_be(a).bits()
}

/// Calls `to_u64` of `num_traits::ToPrimitive` on a `num_bigint::BigInt`: the number itself, where
/// a `u64` holds it.
#[verifier::external_body]
pub(crate) fn bigint_to_u64(a: &[u8]) -> (r: Option<u64>)
    ensures
        r == (if 0 <= twos_complement_value(a@) <= u64::MAX {
            Some(twos_complement_value(a@) as u64)
        } else {
            None
        }),
{
    num_bigint::BigInt::from_signed_bytes_be(a).to_u64()
}

/// Calls `Mul` of `num_bigint::BigInt`: the product.
#[verifier::external_body]
pub(crate) fn bigint_mul(a: &[u8], b: &[u8]) -> (r: Vec<u8>)
    ensures
        twos_complement_value(r@) == twos_complement_value(a@) * twos_complement_value(b@),
{
    let a = num_bigint::BigInt::from_signed_bytes_be(a);
    let b = num_bigint::BigInt::from_signed_bytes_be(b);
    (a * b).to_signed_bytes_be()
}

/// Calls `SubAssign` of `num_bigint::BigInt`: `a` with `b` taken away.
#[verifier::external_body]
pub(crate) fn bigint_sub_assign(a: &[u8], b: &[u8]) -> (r: Vec<u8>)
    ensures
        twos_complement_value(r@) == twos_complement_value(a@) - twos_complement_value(b@),
{
    let mut a = num_bigint::BigInt::from_signed_bytes_be(a);
    a -= num_bigint::BigInt::from_signed_bytes_be(b);
    a.to_signed_bytes_be()
}

/// Calls `Sub<u32>` of `num_bigint::BigInt`: the difference.
#[verifier::external_body]
pub(crate) fn bigint_sub_u32(a: &[u8], n: u32) -> (r: Vec<u8>)
    ensures
        twos_complement_value(r@) == twos_complement_value(a@) - n,
{
    (num_bigint::BigInt::from_signed_bytes_be(a) - n).to_signed_bytes_be()
}

/// Calls `Div<u32>` of `num_bigint::BigInt`: the quotient, rounded toward zero. Division by zero
/// panics there.
#[verifier::external_body]
pub(crate) fn bigint_div_u32(a: &[u8], n: u32) -> (r: Vec<u8>)
    requires
        n != 0,
    ensures
        twos_complement_value(r@) == quotient(twos_complement_value(a@), n as nat),
{
    (num_bigint::BigInt::from_signed_bytes_be(a) / n).to_signed_bytes_be()
}

/// Calls `PartialEq` of `num_bigint::BigInt`: whether the two numbers are equal.
#[verifier::external_body]
pub(crate) fn bigint_eq(a: &[u8], b: &[u8]) -> (r: bool)
    ensures
        r == (twos_complement_value(a@) == twos_complement_value(b@)),
{
    num_bigint::BigInt::from_signed_bytes_be(a)
        == num_bigint::BigInt::from_signed_bytes_be(b)
}

} // verus!
