//! Fields of a transaction as byte strings.

use crate::eth::big_endian::{be_trimmed, zero_padded};
use crate::eth::bigint::{BigInt, BigUint};
use crate::eth::num_bytes::Sign;
use crate::eth::types::EthAddress;
use vstd::prelude::*;

verus! {

/// A negative number, which has no encoding.
#[derive(Debug, Clone, Copy, PartialEq, Eq, Structural)]
pub struct NegativeNumber;

/// The bytes of a recipient: none where there is no recipient.
pub open spec fn address_bytes(address: Option<EthAddress>) -> Seq<u8> {
    match address {
        Some(address) => address.0@,
        None => Seq::empty(),
    }
}

/// `data`, with zero bytes in front up to a length of `length`.
pub fn pad_leading_zeros(data: &[u8], length: usize) -> (r: Vec<u8>)
    ensures
        r@ == zero_padded(data@, length as nat),
{
    let mut padded: Vec<u8> = Vec::new();
    if data.len() < length {
        let missing: usize = length - data.len();
        let mut i: usize = 0;
        while i < missing
            invariant
                i <= missing,
                padded@ == Seq::new(i as nat, |j: int| 0u8),
            decreases missing - i,
        {
            padded.push(0);
            i = i + 1;
            assert(padded@ =~= Seq::new(i as nat, |j: int| 0u8));
        }
    }
    padded.extend_from_slice(data);
    assert(padded@ =~= zero_padded(data@, length as nat));
    padded
}

/// The shortest big-endian bytes of `value`; none for zero.
pub fn format_u64(value: u64) -> (r: Vec<u8>)
    ensures
        r@ == be_trimmed(value as nat),
{
    if value == 0 {
        Vec::new()
    } else {
        BigUint::from_u64(value).to_bytes_be()
    }
}

/// The shortest big-endian bytes of `value`; none for zero. A negative number has none.
pub fn format_bigint(value: &BigInt) -> (r: Result<Vec<u8>, NegativeNumber>)
    ensures
        r is Err <==> value@ < 0,
        r matches Ok(bytes) ==> bytes@ == be_trimmed(value@ as nat),
{
    let (sign, bytes) = value.to_bytes_be();
    match sign {
        Sign::Minus => Err(NegativeNumber),
        Sign::NoSign => Ok(Vec::new()),
        Sign::Plus => Ok(bytes),
    }
}

/// The bytes of a recipient: none where there is no recipient.
pub fn format_address(value: &Option<EthAddress>) -> (r: Vec<u8>)
    ensures
        r@ == address_bytes(*value),
{
    let mut bytes: Vec<u8> = Vec::new();
    match value {
        Some(address) => {
            bytes.extend_from_slice(address.0.as_slice());
        },
        None => {},
    }
    assert(bytes@ =~= address_bytes(*value));
    bytes
}

} // verus!
