//! What a signature holds, byte by byte, and which signatures are made and taken.

use crate::eth::big_endian::{
    be_bytes, be_value, lemma_be_bytes_len, lemma_be_value_of_be_bytes, lemma_zero_padded,
};
use crate::eth::chain_id::{
    chain_id_check, derivable, derived_chain_id, eip155_sig_len, lemma_eip155_sig_len_range,
    ChainIdError, HOMESTEAD_SIG_LEN,
};
use crate::eth::eip_155_transaction::{
    is_framed, is_sig_len, made_signature, signature_bytes, signature_v, taken_signature,
    verifiable_signature, word, Eip155Error, EIP155_CHAIN_ID, EIP_155_SIG_PREFIX,
};
use crate::eth::num_bytes::magnitude;
use crate::eth::types::{EthChainId, SignatureType};
use vstd::arithmetic::power::pow;
use vstd::prelude::*;

verus! {

/// The markers and measures of signatures.
pub proof fn law_constants()
    ensures
        EIP_155_SIG_PREFIX == 2,
        EIP155_CHAIN_ID == 314159,
        HOMESTEAD_SIG_LEN == 1 + 32 + 32 + 1,
{
}

/// Only the `v` from 0 to 34 are left out, and of these 27 and 28 are not.
pub proof fn law_derivable(v: int)
    ensures
        v < 0 ==> derivable(v),
        v > 34 ==> derivable(v),
        0 <= v <= 34 ==> (derivable(v) <==> v == 27 || v == 28),
{
}

/// The chain that is derived from `v` is the one that `v` is twice, plus 35 or 36. From 27 and 28
/// zero is derived, and from negative numbers of at most 64 bits nothing.
pub proof fn law_chain_of_v(v: int)
    requires
        derivable(v),
    ensures
        derived_chain_id(v) is None <==> -0x1_0000_0000_0000_0000 < v < 0,
        v >= 35 ==> (derived_chain_id(v) matches Some(chain) && (v == 2 * chain + 35 || v == 2 * chain
            + 36)),
        v == 27 || v == 28 ==> derived_chain_id(v) == Some(0int),
        v <= -0x1_0000_0000_0000_0000 ==> (derived_chain_id(v) matches Some(chain) && (v == 2 * chain
            + 35 || v == 2 * chain + 34)),
{
}

/// Each error of the check says what `v` is.
pub proof fn law_chain_id_errors(eth_chain_id: EthChainId, v: int)
    requires
        derivable(v),
    ensures
        chain_id_check(eth_chain_id, v) == Err::<(), ChainIdError>(ChainIdError::NegativeV)
            <==> -0x1_0000_0000_0000_0000 < v < 0,
        chain_id_check(eth_chain_id, v) == Err::<(), ChainIdError>(ChainIdError::OutOfRange) <==> (v
            <= -0x1_0000_0000_0000_0000 || v >= 2 * 0x1_0000_0000_0000_0000 + 35),
        chain_id_check(eth_chain_id, v) matches Err(ChainIdError::Mismatch { expected, derived })
            ==> expected == eth_chain_id && derived != eth_chain_id && (v == 2 * derived + 35 || v
            == 2 * derived + 36 || (derived == 0 && (v == 27 || v == 28))),
{
}

/// A signature is 65 bytes longer than the shortest bytes that hold its `v`: no fewer hold it.
pub proof fn law_sig_len_of_v(eth_chain_id: EthChainId, v: u64)
    ensures
        eip155_sig_len(eth_chain_id, v) >= 66,
        2 * eth_chain_id + v < pow(256, (eip155_sig_len(eth_chain_id, v) - 65) as nat),
        eip155_sig_len(eth_chain_id, v) > 66 ==> pow(
            256,
            (eip155_sig_len(eth_chain_id, v) - 66) as nat,
        ) <= 2 * eth_chain_id + v,
{
    let n = (2 * eth_chain_id + v) as nat;
    let len = be_bytes(n).len();
    lemma_eip155_sig_len_range(eth_chain_id, v);
    lemma_be_bytes_len(n, len);
    if len > 1 {
        lemma_be_bytes_len(n, (len - 1) as nat);
    }
}

/// A length is one of a signature for a chain where one of the two `v` of that chain makes it.
pub proof fn law_sig_len_of_chain(eth_chain_id: EthChainId, len: nat)
    ensures
        is_sig_len(eth_chain_id, len) <==> exists|v: int|
            (v == 2 * eth_chain_id + 35 || v == 2 * eth_chain_id + 36) && len == 65
                + #[trigger] be_bytes(v as nat).len(),
{
    let a = be_bytes((2 * eth_chain_id + 35) as nat);
    let b = be_bytes((2 * eth_chain_id + 36) as nat);
    if len == 65 + a.len() {
        assert(be_bytes((2 * eth_chain_id + 35) as nat).len() == len - 65);
    }
    if len == 65 + b.len() {
        assert(be_bytes((2 * eth_chain_id + 36) as nat).len() == len - 65);
    }
}

/// Bytes are looked into where they start with two and have a length of the chain, and what follows
/// the first 65 is `v`.
pub proof fn law_framed(eth_chain_id: EthChainId, sig: Seq<u8>)
    ensures
        is_framed(eth_chain_id, sig) <==> is_sig_len(eth_chain_id, sig.len()) && sig[0] == 2,
        signature_v(sig) == be_value(sig.skip(65)),
{
}

/// A word holds the magnitude of its number, has 32 bytes wherever the number fits, and never has
/// more than the number takes or fewer than 32.
pub proof fn law_word(n: int)
    ensures
        be_value(word(n)) == magnitude(n),
        word(n).len() >= 32,
        magnitude(n) < pow(256, 32) <==> word(n).len() == 32,
        word(n).len() > 32 ==> word(n)[0] != 0,
{
    lemma_be_bytes_len(magnitude(n), 32);
    lemma_zero_padded(be_bytes(magnitude(n)), 32);
    lemma_be_value_of_be_bytes(magnitude(n));
}

/// The bytes of a signature are a two, 32 bytes that spell `r`, 32 bytes that spell `s`, and the
/// shortest bytes that spell `v`.
pub proof fn law_signature_layout(v: int, r: int, s: int)
    requires
        magnitude(r) < pow(256, 32),
        magnitude(s) < pow(256, 32),
    ensures
        signature_bytes(v, r, s).len() >= 66,
        signature_bytes(v, r, s)[0] == 2,
        be_value(signature_bytes(v, r, s).subrange(1, 33)) == magnitude(r),
        be_value(signature_bytes(v, r, s).subrange(33, 65)) == magnitude(s),
        be_value(signature_bytes(v, r, s).skip(65)) == magnitude(v),
        v != 0 ==> signature_bytes(v, r, s)[65] != 0,
        v == 0 ==> signature_bytes(v, r, s).len() == 66,
{
    law_word(r);
    law_word(s);
    lemma_be_value_of_be_bytes(magnitude(v));
    let sig = signature_bytes(v, r, s);
    assert(sig.subrange(1, 33) =~= word(r));
    assert(sig.subrange(33, 65) =~= word(s));
    assert(sig.skip(65) =~= be_bytes(magnitude(v)));
    assert(sig[65] == sig.skip(65)[0]);
}

/// Both `v` of the chain take three bytes.
proof fn lemma_chain_lens()
    ensures
        be_bytes(628353).len() == 3,
        be_bytes(628354).len() == 3,
        forall|len: nat| is_sig_len(314159, len) <==> len == 68,
{
    reveal_with_fuel(be_bytes, 3);
}

/// A signature is made exactly of the two `v` of chain 314159 and of `r` and `s` that fit in 32
/// bytes. It holds them in the order `r`, `s`, `v`.
pub proof fn law_made_signature_bytes(v: int, r: int, s: int)
    requires
        derivable(v),
    ensures
        made_signature(v, r, s) is Ok <==> (v == 628353 || v == 628354) && magnitude(r) < pow(
            256,
            32,
        ) && magnitude(s) < pow(256, 32),
        made_signature(v, r, s) matches Ok(sig) ==> sig.len() == 68 && sig[0] == 2 && be_value(
            sig.subrange(1, 33),
        ) == magnitude(r) && be_value(sig.subrange(33, 65)) == magnitude(s) && be_value(
            sig.skip(65),
        ) == v,
{
    law_word(r);
    law_word(s);
    lemma_chain_lens();
    if magnitude(r) < pow(256, 32) && magnitude(s) < pow(256, 32) {
        law_signature_layout(v, r, s);
    }
}

/// A signature that is not made fails as the check of its `v` does, and otherwise with its length:
/// one byte for the marker, three for `v`, and for `r` and `s` 32 each or what they take beyond.
pub proof fn law_made_signature_errors(v: int, r: int, s: int)
    requires
        derivable(v),
    ensures
        chain_id_check(314159, v) matches Err(error) ==> made_signature(v, r, s) == Err::<
            Seq<u8>,
            Eip155Error,
        >(Eip155Error::ChainId(error)),
        made_signature(v, r, s) is Err && chain_id_check(314159, v) is Ok ==> made_signature(
            v,
            r,
            s,
        ) == Err::<Seq<u8>, Eip155Error>(
            Eip155Error::SignatureLength { len: (4 + word(r).len() + word(s).len()) as usize },
        ),
{
    lemma_chain_lens();
}

/// Of 68 bytes that start with two, the last three must spell 628353 or 628354. The form that can
/// be verified keeps the 64 bytes in between and ends in zero or one, as `v` is the first or the
/// second of these. Everything else fails, and says why.
pub proof fn law_verifiable_signature(sig: Seq<u8>)
    requires
        is_framed(314159, sig) ==> derivable(signature_v(sig)),
    ensures
        sig.len() != 68 ==> verifiable_signature(sig) == Err::<Seq<u8>, Eip155Error>(
            Eip155Error::SignatureLength { len: sig.len() as usize },
        ),
        sig.len() == 68 && sig[0] != 2 ==> verifiable_signature(sig) == Err::<Seq<u8>, Eip155Error>(
            Eip155Error::SignaturePrefix { prefix: sig[0] },
        ),
        sig.len() == 68 && sig[0] == 2 && be_value(sig.skip(65)) == 628353 ==> verifiable_signature(
            sig,
        ) == Ok::<Seq<u8>, Eip155Error>(sig.subrange(1, 65).push(0)),
        sig.len() == 68 && sig[0] == 2 && be_value(sig.skip(65)) == 628354 ==> verifiable_signature(
            sig,
        ) == Ok::<Seq<u8>, Eip155Error>(sig.subrange(1, 65).push(1)),
        sig.len() == 68 && sig[0] == 2 && be_value(sig.skip(65)) != 628353 && be_value(sig.skip(65))
            != 628354 ==> (chain_id_check(314159, be_value(sig.skip(65)) as int) matches Err(error)
            && verifiable_signature(sig) == Err::<Seq<u8>, Eip155Error>(
            Eip155Error::ChainId(error),
        )),
{
    lemma_chain_lens();
}

/// A transaction takes delegated bytes of a length of its chain that start with two and whose `v`
/// names the chain. Its `r` is what the first 32 bytes spell, its `s` what the next 32 spell, and
/// its `v` what the rest spell.
pub proof fn law_taken_signature(eth_chain_id: EthChainId, sig_type: SignatureType, sig: Seq<u8>)
    requires
        is_framed(eth_chain_id, sig) ==> derivable(signature_v(sig)),
    ensures
        taken_signature(eth_chain_id, sig_type, sig) is Ok <==> sig_type == SignatureType::Delegated
            && is_sig_len(eth_chain_id, sig.len()) && sig[0] == 2 && (be_value(sig.skip(65)) == 2
            * eth_chain_id + 35 || be_value(sig.skip(65)) == 2 * eth_chain_id + 36 || (eth_chain_id
            == 0 && (be_value(sig.skip(65)) == 27 || be_value(sig.skip(65)) == 28))),
        taken_signature(eth_chain_id, sig_type, sig) matches Ok((v, r, s)) ==> v == be_value(
            sig.skip(65),
        ) && r == be_value(sig.subrange(1, 33)) && s == be_value(sig.subrange(33, 65)),
{
}

/// Bytes that a transaction does not take fail for the first of these reasons that holds: the type,
/// the length, the first byte, the chain.
pub proof fn law_taken_signature_errors(
    eth_chain_id: EthChainId,
    sig_type: SignatureType,
    sig: Seq<u8>,
)
    requires
        is_framed(eth_chain_id, sig) ==> derivable(signature_v(sig)),
    ensures
        sig_type != SignatureType::Delegated ==> taken_signature(eth_chain_id, sig_type, sig)
            == Err::<(int, int, int), Eip155Error>(Eip155Error::NotDelegated),
        sig_type == SignatureType::Delegated && !is_sig_len(eth_chain_id, sig.len())
            ==> taken_signature(eth_chain_id, sig_type, sig) == Err::<(int, int, int), Eip155Error>(
            Eip155Error::SignatureLength { len: sig.len() as usize },
        ),
        sig_type == SignatureType::Delegated && is_sig_len(eth_chain_id, sig.len()) && sig[0] != 2
            ==> taken_signature(eth_chain_id, sig_type, sig) == Err::<(int, int, int), Eip155Error>(
            Eip155Error::SignaturePrefix { prefix: sig[0] },
        ),
        sig_type == SignatureType::Delegated && is_sig_len(eth_chain_id, sig.len()) && sig[0] == 2
            && taken_signature(eth_chain_id, sig_type, sig) is Err ==> (chain_id_check(
            eth_chain_id,
            be_value(sig.skip(65)) as int,
        ) matches Err(error) && taken_signature(eth_chain_id, sig_type, sig) == Err::<
            (int, int, int),
            Eip155Error,
        >(Eip155Error::ChainId(error))),
{
}

} // verus!
