//! What numbers are as bytes, told by what the bytes satisfy.

use crate::eth::big_endian::{
    be_bytes, be_trimmed, be_value, lemma_be_value_of_be_bytes, lemma_be_value_upper, zero_padded,
};
use crate::eth::bigint::BigInt;
use crate::eth::num_bytes::{magnitude, quotient, sign_of, signed, twos_complement_value, Sign};
use vstd::arithmetic::power::{lemma_pow_adds, pow};
use vstd::prelude::*;
use vstd::std_specs::cmp::PartialEqSpec;

verus! {

/// No bytes spell zero, and a byte behind others makes of their number 256 times that number plus
/// the byte.
pub proof fn law_be_value(bytes: Seq<u8>, byte: u8)
    ensures
        be_value(Seq::empty()) == 0,
        be_value(bytes.push(byte)) == 256 * be_value(bytes) + byte,
{
    assert(bytes.push(byte).drop_last() =~= bytes);
}

/// The bytes of a number spell it, are never none, and start with zero for zero alone.
pub proof fn law_be_bytes(n: nat)
    ensures
        be_value(be_bytes(n)) == n,
        be_bytes(n).len() >= 1,
        n > 0 ==> be_bytes(n)[0] != 0,
        n == 0 ==> be_bytes(n) == seq![0u8],
{
    lemma_be_value_of_be_bytes(n);
}

/// The trimmed bytes of a number spell it, and never start with zero: zero has none.
pub proof fn law_be_trimmed(n: nat)
    ensures
        be_value(be_trimmed(n)) == n,
        n == 0 <==> be_trimmed(n).len() == 0,
        n > 0 ==> be_trimmed(n)[0] != 0,
{
    lemma_be_value_of_be_bytes(n);
}

/// Padded data ends in the data, has zeros alone in front of it, and is as long as asked for
/// wherever the data is not longer.
pub proof fn law_zero_padded(data: Seq<u8>, width: nat)
    ensures
        data.len() <= width ==> zero_padded(data, width).len() == width,
        data.len() >= width ==> zero_padded(data, width) == data,
        zero_padded(data, width).skip(zero_padded(data, width).len() - data.len()) == data,
        forall|i: int|
            0 <= i < zero_padded(data, width).len() - data.len() ==> #[trigger] zero_padded(
                data,
                width,
            )[i] == 0,
{
    let padded = zero_padded(data, width);
    assert(padded.skip(padded.len() - data.len()) =~= data);
}

/// A number is told by its sign and its magnitude.
pub proof fn law_sign_and_magnitude(n: int, m: nat)
    ensures
        sign_of(n) == Sign::Minus <==> n < 0,
        sign_of(n) == Sign::NoSign <==> n == 0,
        sign_of(n) == Sign::Plus <==> n > 0,
        magnitude(n) == n || magnitude(n) == -n,
        signed(sign_of(n), magnitude(n)) == n,
        signed(Sign::Plus, m) == m,
        signed(Sign::Minus, m) == -m,
        signed(Sign::NoSign, m) == 0,
{
}

/// A quotient times the divisor lies between zero and the dividend, less than the divisor away from
/// the dividend.
pub proof fn law_quotient(n: int, d: nat)
    requires
        d > 0,
    ensures
        n >= 0 ==> quotient(n, d) * d <= n < quotient(n, d) * d + d,
        n < 0 ==> quotient(n, d) * d - d < n <= quotient(n, d) * d,
{
    let m = magnitude(n) as int;
    let q = m / (d as int);
    vstd::arithmetic::div_mod::lemma_fundamental_div_mod(m, d as int);
    assert((-q) * d == -(q * d)) by (nonlinear_arith);
    assert(q * d == d * q) by (nonlinear_arith);
}

/// The first byte is the most significant one.
proof fn lemma_first_byte(bytes: Seq<u8>)
    requires
        bytes.len() >= 1,
    ensures
        bytes[0] * pow(256, (bytes.len() - 1) as nat) <= be_value(bytes),
        be_value(bytes) < (bytes[0] + 1) * pow(256, (bytes.len() - 1) as nat),
    decreases bytes.len(),
{
    let front = bytes.drop_last();
    let p = pow(256, (bytes.len() - 1) as nat);
    if bytes.len() == 1 {
        assert(be_value(front) == 0);
        assert(p == 1) by {
            reveal(pow);
        }
    } else {
        let q = pow(256, (front.len() - 1) as nat);
        lemma_first_byte(front);
        lemma_pow_adds(256, 1, (front.len() - 1) as nat);
        assert(pow(256, 1) == 256) by {
            reveal_with_fuel(pow, 2);
        }
        let b = bytes[0] as int;
        assert(b * p == 256 * (b * q)) by (nonlinear_arith)
            requires
                p == 256 * q,
        ;
        assert((b + 1) * p == 256 * ((b + 1) * q)) by (nonlinear_arith)
            requires
                p == 256 * q,
        ;
    }
}

/// In two's complement, bytes spell a number that they also spell as a natural number, up to one
/// turn of 256 to the power of their length; it is the one of these that is nearest to zero.
pub proof fn law_twos_complement_value(bytes: Seq<u8>)
    ensures
        twos_complement_value(bytes) == be_value(bytes) || twos_complement_value(bytes) == be_value(
            bytes,
        ) - pow(256, bytes.len()),
        bytes.len() > 0 ==> -pow(256, bytes.len()) <= 2 * twos_complement_value(bytes) < pow(
            256,
            bytes.len(),
        ),
        bytes.len() == 0 ==> twos_complement_value(bytes) == 0,
{
    if bytes.len() > 0 {
        let p = pow(256, (bytes.len() - 1) as nat);
        let b = bytes[0] as int;
        lemma_first_byte(bytes);
        lemma_be_value_upper(bytes);
        lemma_pow_adds(256, 1, (bytes.len() - 1) as nat);
        assert(pow(256, 1) == 256) by {
            reveal_with_fuel(pow, 2);
        }
        if b >= 0x80 {
            assert(b * p >= 0x80 * p) by (nonlinear_arith)
                requires
                    b >= 0x80,
                    p >= 0,
            ;
        } else {
            assert((b + 1) * p <= 0x80 * p) by (nonlinear_arith)
                requires
                    b + 1 <= 0x80,
                    p >= 0,
            ;
        }
    }
}

/// Two numbers compare as equal exactly where they are one number.
pub proof fn law_bigint_eq(a: BigInt, b: BigInt)
    ensures
        BigInt::obeys_eq_spec(),
        a.eq_spec(&b) <==> a@ == b@,
{
}

} // verus!
