//! The chain that a transaction signature names, and the length of such a signature.

use crate::eth::big_endian::{be_bytes, lemma_be_value_lower, lemma_be_value_of_be_bytes};
use crate::eth::bigint::{BigInt, BigUint};
use crate::eth::num_bytes::quotient;
use crate::eth::types::EthChainId;
use vstd::arithmetic::power::{lemma_pow_strictly_increases_converse, pow};
use vstd::arithmetic::power2::{lemma2_to64, lemma_pow2_strictly_increases};
use vstd::prelude::*;

verus! {

/// The length of a signature without replay protection: a one-byte marker, 32 bytes each for `r`
/// and `s`, and one byte for `v`.
pub const HOMESTEAD_SIG_LEN: usize = 66;

/// Why the `v` of a signature does not name a chain.
#[derive(Debug, Clone, Copy, PartialEq, Eq, Structural)]
pub enum ChainIdError {
    /// `v` fits in 64 bits but is negative.
    NegativeV,
    /// The chain that `v` names has no number of 64 bits.
    OutOfRange,
    /// `v` names another chain.
    Mismatch { expected: EthChainId, derived: EthChainId },
}

/// Whether a chain can be derived from `v`: no chain has a `v` from 0 to 34, but that 27 and 28
/// mark a signature without replay protection.
pub open spec fn derivable(v: int) -> bool {
    v < 0 || v == 27 || v == 28 || 35 <= v
}

/// The chain that `v` names, where `v` is not a negative number of at most 64 bits.
pub open spec fn derived_chain_id(v: int) -> Option<int>
    recommends
        derivable(v),
{
    if -0x1_0000_0000_0000_0000 < v < 0 {
        None
    } else if v == 27 || v == 28 {
        Some(0)
    } else {
        Some(quotient(v - 35, 2))
    }
}

/// Whether `v` names the chain `eth_chain_id`.
pub open spec fn chain_id_check(eth_chain_id: EthChainId, v: int) -> Result<(), ChainIdError>
    recommends
        derivable(v),
{
    match derived_chain_id(v) {
        None => Err(ChainIdError::NegativeV),
        Some(derived) => if derived < 0 || derived > u64::MAX {
            Err(ChainIdError::OutOfRange)
        } else if derived != eth_chain_id {
            Err(ChainIdError::Mismatch { expected: eth_chain_id, derived: derived as u64 })
        } else {
            Ok(())
        },
    }
}

/// The length of a signature whose `v` is `v` plus twice the chain.
pub open spec fn eip155_sig_len(eth_chain_id: EthChainId, v: u64) -> nat {
    (HOMESTEAD_SIG_LEN + be_bytes((2 * eth_chain_id + v) as nat).len() - 1) as nat
}

/// A signature is a marker, 64 bytes, and one to nine bytes for `v`.
pub proof fn lemma_eip155_sig_len_range(eth_chain_id: EthChainId, v: u64)
    ensures
        66 <= eip155_sig_len(eth_chain_id, v) <= 74,
{
    let n = (2 * eth_chain_id + v) as nat;
    let bytes = be_bytes(n);
    lemma_be_value_of_be_bytes(n);
    if bytes.len() > 9 {
        lemma_be_value_lower(bytes);
        reveal_with_fuel(pow, 10);
        assert(pow(256, 9) == 0x1_00_0000_0000_0000_0000);
        lemma_pow_strictly_increases_converse(256, (bytes.len() - 1) as nat, 9);
    }
}

/// Whether a chain can be derived from `v`.
pub fn is_derivable(v: &BigInt) -> (r: bool)
    ensures
        r == derivable(v@),
{
    match v.to_u64() {
        Some(v) => v == 27 || v == 28 || 35 <= v,
        None => true,
    }
}

/// The chain that `v` names. A `v` of 27 or 28 marks a signature without replay protection, which
/// names no chain: zero. Every other `v` from 0 to 34 is left out, as 35 cannot be taken away from
/// it without overflow.
pub fn derive_eip_155_chain_id(v: &BigInt) -> (r: Result<BigInt, ChainIdError>)
    requires
        derivable(v@),
    ensures
        match derived_chain_id(v@) {
            Some(chain_id) => r matches Ok(derived) && derived@ == chain_id,
            None => r == Err::<BigInt, ChainIdError>(ChainIdError::NegativeV),
        },
{
    let bits: u64 = v.bits();
    proof {
        lemma2_to64();
        if bits < 64 {
            lemma_pow2_strictly_increases(bits as nat, 64);
        }
        if bits > 65 {
            lemma_pow2_strictly_increases(64, (bits - 1) as nat);
        }
    }
    if bits <= 64 {
        let v: u64 = match v.to_u64() {
            Some(v) => v,
            None => {
                return Err(ChainIdError::NegativeV);
            },
        };
        if v == 27 || v == 28 {
            return Ok(BigInt::from_u64(0));
        }
        return Ok(BigInt::from_u64((v - 35) / 2));
    }
    Ok(v.sub_u32(35).div_u32(2))
}

/// Checks that `v` names the chain `eth_chain_id`.
pub fn validate_eip155_chain_id(eth_chain_id: EthChainId, v: &BigInt) -> (r: Result<
    (),
    ChainIdError,
>)
    requires
        derivable(v@),
    ensures
        r == chain_id_check(eth_chain_id, v@),
{
    let derived = match derive_eip_155_chain_id(v) {
        Ok(derived) => derived,
        Err(error) => {
            return Err(error);
        },
    };
    match derived.to_u64() {
        None => Err(ChainIdError::OutOfRange),
        Some(derived) => if derived == eth_chain_id {
            Ok(())
        } else {
            Err(ChainIdError::Mismatch { expected: eth_chain_id, derived })
        },
    }
}

/// The length of a signature whose `v` is `v` plus twice the chain.
pub fn calc_eip155_sig_len(eth_chain_id: EthChainId, v: u64) -> (r: u64)
    ensures
        r == eip155_sig_len(eth_chain_id, v),
{
    let v_value = BigUint::from_u64(eth_chain_id).mul_u64(2).add_u64(v);
    let v_len: u64 = v_value.to_bytes_be().len() as u64;
    proof {
        assert(eth_chain_id as nat * 2 + v == (2 * eth_chain_id + v) as nat);
        lemma_eip155_sig_len_range(eth_chain_id, v);
    }
    // The length without replay protection counts one byte for `v` already.
    HOMESTEAD_SIG_LEN as u64 + v_len - 1
}

/// The two lengths that a signature for the chain `eth_chain_id` can have. They differ where the
/// two values of `v` that name the chain do not take equally many bytes.
pub fn calc_valid_eip155_sig_len(eth_chain_id: EthChainId) -> (r: (u64, u64))
    ensures
        r.0 == eip155_sig_len(eth_chain_id, 35),
        r.1 == eip155_sig_len(eth_chain_id, 36),
{
    let sig_len1: u64 = calc_eip155_sig_len(eth_chain_id, 35);
    let sig_len2: u64 = calc_eip155_sig_len(eth_chain_id, 36);
    (sig_len1, sig_len2)
}

} // verus!
