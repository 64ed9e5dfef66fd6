//! Addresses, signatures and messages.

use crate::eth::bigint::BigInt;
use vstd::prelude::*;

verus! {

/// The number of a chain.
pub type EthChainId = u64;

/// An Ethereum address.
#[derive(Debug, Clone, Copy, PartialEq, Eq)]
pub struct EthAddress(pub [u8; 20]);

/// The scheme of a signature.
#[derive(Debug, Clone, Copy, PartialEq, Eq, Structural)]
pub enum SignatureType {
    Secp256k1,
    Bls,
    Delegated,
}

/// A signature: its scheme and its bytes.
#[derive(Debug, Clone, PartialEq, Eq)]
pub struct Signature {
    pub sig_type: SignatureType,
    pub bytes: Vec<u8>,
}

impl Signature {
    /// The scheme.
    pub fn signature_type(&self) -> (r: SignatureType)
        ensures
            r == self.sig_type,
    {
        self.sig_type
    }

    /// The bytes.
    pub fn bytes(&self) -> (r: &[u8])
        ensures
            r@ == self.bytes@,
    {
        self.bytes.as_slice()
    }
}

/// What an Ethereum transaction takes from a message. Amounts are in the smallest unit.
#[derive(Debug, Clone, PartialEq, Eq)]
pub struct Message {
    pub sequence: u64,
    pub value: BigInt,
    pub gas_limit: u64,
    pub gas_fee_cap: BigInt,
}

} // verus!
