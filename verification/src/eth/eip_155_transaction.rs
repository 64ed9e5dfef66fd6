//! Legacy Ethereum transactions whose signature names the chain.

use crate::eth::big_endian::{be_bytes, be_trimmed, be_value, zero_padded};
use crate::eth::bigint::BigInt;
use crate::eth::chain_id::{
    calc_eip155_sig_len, calc_valid_eip155_sig_len, chain_id_check, derivable, eip155_sig_len,
    is_derivable, lemma_eip155_sig_len_range, validate_eip155_chain_id, ChainIdError,
};
use crate::eth::format::{
    address_bytes, format_address, format_bigint, format_u64, pad_leading_zeros, NegativeNumber,
};
use crate::eth::num_bytes::{magnitude, Sign};
use crate::eth::rlp_stream::{contents, encode_list, rlp_list_of};
use crate::eth::types::{EthAddress, EthChainId, Signature, SignatureType};
use vstd::prelude::*;
use vstd::slice::slice_subrange;

verus! {

/// The byte that marks a signature with replay protection.
pub const EIP_155_SIG_PREFIX: u8 = 0x02;

/// The chain that transactions are signed for.
pub const EIP155_CHAIN_ID: EthChainId = 314159;

/// Why a signature cannot be made or taken.
#[derive(Debug, Clone, Copy, PartialEq, Eq, Structural)]
pub enum Eip155Error {
    /// The `v` of the signature does not name the chain.
    ChainId(ChainIdError),
    /// The signature is not of the delegated type.
    NotDelegated,
    /// The signature has neither of the lengths that the chain gives.
    SignatureLength { len: usize },
    /// The signature does not hold `r`, `s` and `v`.
    SignatureTooShort { len: usize },
    /// The signature starts with another marker.
    SignaturePrefix { prefix: u8 },
    /// The `v` of the signature, with the chain taken out, is neither 27 nor 28.
    RecoveryValue,
}

/// A legacy Ethereum transaction with chain replay protection.
///
/// The chain is part of what is signed. It is no field of the serialized transaction: there the
/// `v` of the signature holds it.
#[derive(Debug, PartialEq)]
pub struct EthLegacyEip155TxArgs {
    pub chain_id: EthChainId,
    pub nonce: u64,
    pub gas_price: BigInt,
    pub gas_limit: u64,
    pub to: Option<EthAddress>,
    pub value: BigInt,
    pub input: Vec<u8>,
    pub v: BigInt,
    pub r: BigInt,
    pub s: BigInt,
}

/// What a transaction is: its fields as mathematical values.
pub struct TxView {
    pub chain_id: EthChainId,
    pub nonce: u64,
    pub gas_price: int,
    pub gas_limit: u64,
    pub to: Option<EthAddress>,
    pub value: int,
    pub input: Seq<u8>,
    pub v: int,
    pub r: int,
    pub s: int,
}

impl View for EthLegacyEip155TxArgs {
    type V = TxView;

    open spec fn view(&self) -> TxView {
        TxView {
            chain_id: self.chain_id,
            nonce: self.nonce,
            gas_price: self.gas_price@,
            gas_limit: self.gas_limit,
            to: self.to,
            value: self.value@,
            input: self.input@,
            v: self.v@,
            r: self.r@,
            s: self.s@,
        }
    }
}

impl Clone for EthLegacyEip155TxArgs {
    fn clone(&self) -> (r: Self)
        ensures
            r@ == self@,
    {
        let tx = EthLegacyEip155TxArgs {
            chain_id: self.chain_id,
            nonce: self.nonce,
            gas_price: self.gas_price.clone(),
            gas_limit: self.gas_limit,
            to: self.to,
            value: self.value.clone(),
            input: self.input.clone(),
            v: self.v.clone(),
            r: self.r.clone(),
            s: self.s.clone(),
        };
        assert(tx@.input =~= self@.input);
        tx
    }
}

impl Default for EthLegacyEip155TxArgs {
    /// Zeros, no recipient and no input.
    fn default() -> (r: Self)
        ensures
            r@ == (TxView {
                chain_id: 0,
                nonce: 0,
                gas_price: 0,
                gas_limit: 0,
                to: None,
                value: 0,
                input: Seq::empty(),
                v: 0,
                r: 0,
                s: 0,
            }),
    {
        EthLegacyEip155TxArgs {
            chain_id: 0,
            nonce: 0,
            gas_price: BigInt::default(),
            gas_limit: 0,
            to: None,
            value: BigInt::default(),
            input: Vec::new(),
            v: BigInt::default(),
            r: BigInt::default(),
            s: BigInt::default(),
        }
    }
}

/// The first length that a signature for [`EIP155_CHAIN_ID`] can have.
pub fn eth_legacy_155_tx_signature_len_0() -> (r: usize)
    ensures
        r == eip155_sig_len(EIP155_CHAIN_ID, 35),
{
    proof {
        lemma_eip155_sig_len_range(EIP155_CHAIN_ID, 35);
    }
    calc_eip155_sig_len(EIP155_CHAIN_ID, 35) as usize
}

/// The second length that a signature for [`EIP155_CHAIN_ID`] can have.
pub fn eth_legacy_155_tx_signature_len_1() -> (r: usize)
    ensures
        r == eip155_sig_len(EIP155_CHAIN_ID, 36),
{
    proof {
        lemma_eip155_sig_len_range(EIP155_CHAIN_ID, 36);
    }
    calc_eip155_sig_len(EIP155_CHAIN_ID, 36) as usize
}

/// Whether `len` is a length of a signature for the chain `eth_chain_id`.
pub open spec fn is_sig_len(eth_chain_id: EthChainId, len: nat) -> bool {
    len == eip155_sig_len(eth_chain_id, 35) || len == eip155_sig_len(eth_chain_id, 36)
}

/// A number in 32 bytes, or more where it needs more.
pub open spec fn word(n: int) -> Seq<u8> {
    zero_padded(be_bytes(magnitude(n)), 32)
}

/// The bytes of a signature: the marker, `r` and `s` in 32 bytes each, and `v`.
pub open spec fn signature_bytes(v: int, r: int, s: int) -> Seq<u8> {
    seq![EIP_155_SIG_PREFIX] + word(r) + word(s) + be_bytes(magnitude(v))
}

/// The signature that `v`, `r` and `s` make.
pub open spec fn made_signature(v: int, r: int, s: int) -> Result<Seq<u8>, Eip155Error> {
    match chain_id_check(EIP155_CHAIN_ID, v) {
        Err(error) => Err(Eip155Error::ChainId(error)),
        Ok(()) => {
            let bytes = signature_bytes(v, r, s);
            if is_sig_len(EIP155_CHAIN_ID, bytes.len()) {
                Ok(bytes)
            } else {
                Err(Eip155Error::SignatureLength { len: bytes.len() as usize })
            }
        },
    }
}

/// The `v` in the bytes of a signature: all that follows the marker, `r` and `s`.
pub open spec fn signature_v(sig: Seq<u8>) -> int {
    be_value(sig.skip(65)) as int
}

/// Whether `sig` has the marker and a length of a signature for the chain `eth_chain_id`.
pub open spec fn is_framed(eth_chain_id: EthChainId, sig: Seq<u8>) -> bool {
    is_sig_len(eth_chain_id, sig.len()) && sig[0] == EIP_155_SIG_PREFIX
}

/// The form of the signature `sig` that can be verified: `r`, `s`, and 0 or 1 for the `v` that
/// would be 27 or 28 without replay protection.
pub open spec fn verifiable_signature(sig: Seq<u8>) -> Result<Seq<u8>, Eip155Error> {
    if !is_sig_len(EIP155_CHAIN_ID, sig.len()) {
        Err(Eip155Error::SignatureLength { len: sig.len() as usize })
    } else if sig[0] != EIP_155_SIG_PREFIX {
        Err(Eip155Error::SignaturePrefix { prefix: sig[0] })
    } else {
        let v = signature_v(sig);
        match chain_id_check(EIP155_CHAIN_ID, v) {
            Err(error) => Err(Eip155Error::ChainId(error)),
            Ok(()) => Ok(
                sig.subrange(1, 65).push((v - 2 * EIP155_CHAIN_ID - 35) as u8),
            ),
        }
    }
}

/// The `v`, `r` and `s` that a signature gives a transaction for the chain `eth_chain_id`.
pub open spec fn taken_signature(
    eth_chain_id: EthChainId,
    sig_type: SignatureType,
    sig: Seq<u8>,
) -> Result<(int, int, int), Eip155Error> {
    if sig_type != SignatureType::Delegated {
        Err(Eip155Error::NotDelegated)
    } else if !is_sig_len(eth_chain_id, sig.len()) {
        Err(Eip155Error::SignatureLength { len: sig.len() as usize })
    } else if sig[0] != EIP_155_SIG_PREFIX {
        Err(Eip155Error::SignaturePrefix { prefix: sig[0] })
    } else {
        let v = signature_v(sig);
        match chain_id_check(eth_chain_id, v) {
            Err(error) => Err(Eip155Error::ChainId(error)),
            Ok(()) => Ok(
                (v, be_value(sig.subrange(1, 33)) as int, be_value(sig.subrange(33, 65)) as int),
            ),
        }
    }
}

/// The fields of a transaction that come before the signature, as byte strings.
pub open spec fn unsigned_fields(tx: TxView) -> Seq<Seq<u8>> {
    seq![
        be_trimmed(tx.nonce as nat),
        be_trimmed(tx.gas_price as nat),
        be_trimmed(tx.gas_limit as nat),
        address_bytes(tx.to),
        be_trimmed(tx.value as nat),
        tx.input,
    ]
}

/// The fields of a transaction with its signature, as byte strings.
pub open spec fn signed_fields(tx: TxView) -> Seq<Seq<u8>> {
    unsigned_fields(tx) + seq![
        be_trimmed(tx.v as nat),
        be_trimmed(tx.r as nat),
        be_trimmed(tx.s as nat),
    ]
}

/// The fields of a transaction that are signed, as byte strings: in place of the signature stand
/// the chain and two zeros.
pub open spec fn digest_fields(tx: TxView) -> Seq<Seq<u8>> {
    unsigned_fields(tx) + seq![
        be_trimmed(EIP155_CHAIN_ID as nat),
        Seq::<u8>::empty(),
        Seq::<u8>::empty(),
    ]
}

/// The transaction with its signature, encoded.
pub open spec fn signed_message(tx: TxView) -> Result<Seq<u8>, NegativeNumber> {
    if tx.gas_price < 0 || tx.value < 0 || tx.v < 0 || tx.r < 0 || tx.s < 0 {
        Err(NegativeNumber)
    } else {
        Ok(rlp_list_of(signed_fields(tx)))
    }
}

/// What is signed of the transaction, encoded.
pub open spec fn unsigned_message(tx: TxView) -> Result<Seq<u8>, NegativeNumber> {
    if tx.gas_price < 0 || tx.value < 0 {
        Err(NegativeNumber)
    } else {
        Ok(rlp_list_of(digest_fields(tx)))
    }
}

/// Whether a chain can be derived from the `v` of `sig`, where `sig` has the marker and a length of
/// a signature for the chain `eth_chain_id`. Other bytes are refused before their `v` is read.
pub fn has_derivable_v(eth_chain_id: EthChainId, sig: &[u8]) -> (r: bool)
    ensures
        r == (is_framed(eth_chain_id, sig@) ==> derivable(signature_v(sig@))),
{
    let valid_sig_len = calc_valid_eip155_sig_len(eth_chain_id);
    proof {
        lemma_eip155_sig_len_range(eth_chain_id, 35);
        lemma_eip155_sig_len_range(eth_chain_id, 36);
    }
    if sig.len() != valid_sig_len.0 as usize && sig.len() != valid_sig_len.1 as usize {
        return true;
    }
    if sig[0] != EIP_155_SIG_PREFIX {
        return true;
    }
    assert(sig@.subrange(65, sig@.len() as int) =~= sig@.skip(65));
    is_derivable(&BigInt::from_bytes_be(Sign::Plus, slice_subrange(sig, 65, sig.len())))
}

impl EthLegacyEip155TxArgs {
    /// The signature of this transaction, of the delegated type.
    pub fn signature(&self) -> (res: Result<Signature, Eip155Error>)
        requires
            derivable(self.v@),
        ensures
            match made_signature(self.v@, self.r@, self.s@) {
                Ok(bytes) => res matches Ok(sig) && sig.sig_type == SignatureType::Delegated
                    && sig.bytes@ == bytes,
                Err(error) => res == Err::<Signature, Eip155Error>(error),
            },
    {
        match validate_eip155_chain_id(EIP155_CHAIN_ID, &self.v) {
            Ok(()) => {},
            Err(error) => {
                return Err(Eip155Error::ChainId(error));
            },
        }
        let r_bytes = self.r.to_bytes_be().1;
        let s_bytes = self.s.to_bytes_be().1;
        let mut v_bytes = self.v.to_bytes_be().1;

        let mut sig = pad_leading_zeros(r_bytes.as_slice(), 32);
        let mut s_word = pad_leading_zeros(s_bytes.as_slice(), 32);
        sig.append(&mut s_word);
        sig.append(&mut v_bytes);
        sig.insert(0, EIP_155_SIG_PREFIX);
        assert(sig@ =~= signature_bytes(self.v@, self.r@, self.s@));

        let sig_len: usize = sig.len();
        if sig_len != eth_legacy_155_tx_signature_len_0() && sig_len
            != eth_legacy_155_tx_signature_len_1() {
            return Err(Eip155Error::SignatureLength { len: sig_len });
        }
        Ok(Signature { sig_type: SignatureType::Delegated, bytes: sig })
    }

    /// The form of the signature `sig` that can be verified: `r`, `s`, and one byte that is 0 or 1.
    pub fn to_verifiable_signature(&self, sig: Vec<u8>) -> (res: Result<Vec<u8>, Eip155Error>)
        requires
            is_framed(EIP155_CHAIN_ID, sig@) ==> derivable(signature_v(sig@)),
        ensures
            match verifiable_signature(sig@) {
                Ok(bytes) => res matches Ok(sig) && sig@ == bytes,
                Err(error) => res == Err::<Vec<u8>, Eip155Error>(error),
            },
    {
        let ghost whole = sig@;
        let mut sig = sig;
        if sig.len() != eth_legacy_155_tx_signature_len_0() && sig.len()
            != eth_legacy_155_tx_signature_len_1() {
            return Err(Eip155Error::SignatureLength { len: sig.len() });
        }
        proof {
            lemma_eip155_sig_len_range(EIP155_CHAIN_ID, 35);
            lemma_eip155_sig_len_range(EIP155_CHAIN_ID, 36);
        }
        if sig[0] != EIP_155_SIG_PREFIX {
            return Err(Eip155Error::SignaturePrefix { prefix: sig[0] });
        }
        // The marker only tells the kinds of legacy transactions apart.
        sig.remove(0);

        let mut v_value = BigInt::from_bytes_be(
            Sign::Plus,
            slice_subrange(sig.as_slice(), 64, sig.len()),
        );
        assert(sig@.subrange(64, sig@.len() as int) =~= whole.skip(65));
        match validate_eip155_chain_id(EIP155_CHAIN_ID, &v_value) {
            Ok(()) => {},
            Err(error) => {
                return Err(Eip155Error::ChainId(error));
            },
        }
        let chain_id_mul = BigInt::from_u64(EIP155_CHAIN_ID).times(&BigInt::from_u64(2));
        v_value.subtract(&chain_id_mul);
        v_value.subtract(&BigInt::from_u64(8));

        // 27 and 28 become 0 and 1, as in later kinds of transactions.
        if v_value == BigInt::from_u64(27) {
            sig.set(64, 0);
        } else if v_value == BigInt::from_u64(28) {
            sig.set(64, 1);
        } else {
            return Err(Eip155Error::RecoveryValue);
        }
        sig.truncate(65);
        assert(sig@ =~= whole.subrange(1, 65).push(sig@[64]));
        Ok(sig)
    }

    /// This transaction with the `v`, `r` and `s` of `signature`.
    pub fn with_signature(self, signature: &Signature) -> (res: Result<Self, Eip155Error>)
        requires
            signature.sig_type == SignatureType::Delegated && is_framed(
                self.chain_id,
                signature.bytes@,
            ) ==> derivable(signature_v(signature.bytes@)),
        ensures
            match taken_signature(self.chain_id, signature.sig_type, signature.bytes@) {
                Ok((v, r, s)) => res matches Ok(tx) && tx@ == (TxView { v, r, s, ..self@ }),
                Err(error) => res == Err::<Self, Eip155Error>(error),
            },
    {
        let mut tx = self;
        if signature.signature_type() != SignatureType::Delegated {
            return Err(Eip155Error::NotDelegated);
        }
        let valid_sig_len = calc_valid_eip155_sig_len(tx.chain_id);
        let bytes = signature.bytes();
        proof {
            lemma_eip155_sig_len_range(tx.chain_id, 35);
            lemma_eip155_sig_len_range(tx.chain_id, 36);
        }
        if bytes.len() != valid_sig_len.0 as usize && bytes.len() != valid_sig_len.1 as usize {
            return Err(Eip155Error::SignatureLength { len: bytes.len() });
        }
        if bytes.len() < 66 {
            return Err(Eip155Error::SignatureTooShort { len: bytes.len() });
        }
        if bytes[0] != EIP_155_SIG_PREFIX {
            return Err(Eip155Error::SignaturePrefix { prefix: bytes[0] });
        }
        let r = BigInt::from_bytes_be(Sign::Plus, slice_subrange(bytes, 1, 33));
        let s = BigInt::from_bytes_be(Sign::Plus, slice_subrange(bytes, 33, 65));
        let v = BigInt::from_bytes_be(Sign::Plus, slice_subrange(bytes, 65, bytes.len()));
        assert(bytes@.subrange(65, bytes@.len() as int) =~= signature.bytes@.skip(65));

        match validate_eip155_chain_id(tx.chain_id, &v) {
            Ok(()) => {},
            Err(error) => {
                return Err(Eip155Error::ChainId(error));
            },
        }
        tx.r = r;
        tx.s = s;
        tx.v = v;
        Ok(tx)
    }

    /// The transaction with its signature, encoded.
    pub fn rlp_signed_message(&self) -> (res: Result<Vec<u8>, NegativeNumber>)
        ensures
            match signed_message(self@) {
                Ok(bytes) => res matches Ok(message) && message@ == bytes,
                Err(error) => res == Err::<Vec<u8>, NegativeNumber>(error),
            },
    {
        let mut fields: Vec<Vec<u8>> = Vec::new();
        fields.push(format_u64(self.nonce));
        fields.push(format_bigint(&self.gas_price)?);
        fields.push(format_u64(self.gas_limit));
        fields.push(format_address(&self.to));
        fields.push(format_bigint(&self.value)?);
        fields.push(self.input.clone());
        fields.push(format_bigint(&self.v)?);
        fields.push(format_bigint(&self.r)?);
        fields.push(format_bigint(&self.s)?);
        assert(contents(fields@) =~= signed_fields(self@));
        Ok(encode_list(&fields))
    }

    /// What is signed of the transaction, encoded.
    pub fn rlp_unsigned_message(&self) -> (res: Result<Vec<u8>, NegativeNumber>)
        ensures
            match unsigned_message(self@) {
                Ok(bytes) => res matches Ok(message) && message@ == bytes,
                Err(error) => res == Err::<Vec<u8>, NegativeNumber>(error),
            },
    {
        let mut fields: Vec<Vec<u8>> = Vec::new();
        fields.push(format_u64(self.nonce));
        fields.push(format_bigint(&self.gas_price)?);
        fields.push(format_u64(self.gas_limit));
        fields.push(format_address(&self.to));
        fields.push(format_bigint(&self.value)?);
        fields.push(self.input.clone());
        fields.push(format_bigint(&BigInt::from_u64(EIP155_CHAIN_ID))?);
        fields.push(format_u64(0));
        fields.push(format_u64(0));
        assert(contents(fields@) =~= digest_fields(self@));
        Ok(encode_list(&fields))
    }
}

} // verus!
