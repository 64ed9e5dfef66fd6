//! What holds of transactions and signatures as a whole.

use crate::eth::big_endian::{
    be_bytes, be_value, lemma_be_bytes_len, lemma_be_value_of_be_bytes, lemma_be_value_upper,
    lemma_zero_padded, lemma_zero_padded_of_be_value, zero_padded,
};
use crate::eth::chain_id::{
    chain_id_check, derivable, derived_chain_id, eip155_sig_len, lemma_eip155_sig_len_range,
};
use crate::eth::eip_155_transaction::{
    is_framed, is_sig_len, made_signature, signature_bytes, signature_v, signed_message,
    taken_signature, unsigned_message, verifiable_signature, word, Eip155Error, TxView,
    EIP155_CHAIN_ID, EIP_155_SIG_PREFIX,
};
use crate::eth::num_bytes::magnitude;
use crate::eth::types::{EthChainId, SignatureType};
use vstd::arithmetic::power::pow;
use vstd::prelude::*;

verus! {

/// The chain that was put into `v` is the chain that is derived from it.
pub proof fn law_derived_chain_id(eth_chain_id: EthChainId)
    ensures
        derivable(2 * eth_chain_id + 35),
        derivable(2 * eth_chain_id + 36),
        derived_chain_id(2 * eth_chain_id + 35) == Some(eth_chain_id as int),
        derived_chain_id(2 * eth_chain_id + 36) == Some(eth_chain_id as int),
{
}

/// A `v` passes for a chain exactly where it is twice the chain plus 35 or 36; for chain zero 27
/// and 28 pass too.
pub proof fn law_chain_id_check(eth_chain_id: EthChainId, v: int)
    requires
        derivable(v),
    ensures
        chain_id_check(eth_chain_id, v) is Ok <==> (v == 2 * eth_chain_id + 35 || v == 2
            * eth_chain_id + 36 || (eth_chain_id == 0 && (v == 27 || v == 28))),
{
}

/// The two lengths of a signature for a chain differ by at most one, and the first is the shorter.
pub proof fn law_sig_lens(eth_chain_id: EthChainId)
    ensures
        66 <= eip155_sig_len(eth_chain_id, 35) <= eip155_sig_len(eth_chain_id, 36),
        eip155_sig_len(eth_chain_id, 36) <= eip155_sig_len(eth_chain_id, 35) + 1,
{
    lemma_eip155_sig_len_range(eth_chain_id, 35);
    let n = (2 * eth_chain_id + 35) as nat;
    lemma_be_bytes_len_step(n);
}

/// The next number takes as many bytes, or one more.
proof fn lemma_be_bytes_len_step(n: nat)
    ensures
        be_bytes(n).len() <= be_bytes(n + 1).len() <= be_bytes(n).len() + 1,
    decreases n,
{
    if n > 0xff {
        if (n + 1) % 256 == 0 {
            assert((n + 1) / 256 == n / 256 + 1);
            lemma_be_bytes_len_step(n / 256);
        } else {
            assert((n + 1) / 256 == n / 256);
        }
    } else {
        reveal_with_fuel(be_bytes, 2);
    }
}

/// A signature for a chain has one of the two lengths of that chain, where `r` and `s` fit in 32
/// bytes each.
pub proof fn law_signature_len(eth_chain_id: EthChainId, v: int, r: int, s: int)
    requires
        v == 2 * eth_chain_id + 35 || v == 2 * eth_chain_id + 36,
        magnitude(r) < pow(256, 32),
        magnitude(s) < pow(256, 32),
    ensures
        is_sig_len(eth_chain_id, signature_bytes(v, r, s).len()),
{
    lemma_word_len(r);
    lemma_word_len(s);
}

/// A number takes 32 bytes exactly where it fits.
proof fn lemma_word_len(n: int)
    ensures
        word(n).len() >= 32,
        word(n).len() == 32 <==> magnitude(n) < pow(256, 32),
        word(n).len() == 32 ==> be_value(word(n)) == magnitude(n),
{
    lemma_be_bytes_len(magnitude(n), 32);
    lemma_zero_padded(be_bytes(magnitude(n)), 32);
    lemma_be_value_of_be_bytes(magnitude(n));
}

/// A signature can be made exactly where `v` names the chain and `r` and `s` fit in 32 bytes each.
pub proof fn law_made_signature(v: int, r: int, s: int)
    requires
        derivable(v),
    ensures
        made_signature(v, r, s) is Ok <==> (chain_id_check(EIP155_CHAIN_ID, v) is Ok && magnitude(
            r,
        ) < pow(256, 32) && magnitude(s) < pow(256, 32)),
{
    lemma_word_len(r);
    lemma_word_len(s);
    law_chain_id_check(EIP155_CHAIN_ID, v);
    lemma_chain_v_len();
}

/// Both values of `v` for the chain take three bytes.
proof fn lemma_chain_v_len()
    ensures
        be_bytes((2 * EIP155_CHAIN_ID + 35) as nat).len() == 3,
        be_bytes((2 * EIP155_CHAIN_ID + 36) as nat).len() == 3,
        eip155_sig_len(EIP155_CHAIN_ID, 35) == 68,
        eip155_sig_len(EIP155_CHAIN_ID, 36) == 68,
{
    reveal_with_fuel(be_bytes, 3);
}

/// The parts of a signature are where they are looked for.
proof fn lemma_signature_parts(v: int, r: int, s: int)
    requires
        word(r).len() == 32,
        word(s).len() == 32,
    ensures
        signature_bytes(v, r, s)[0] == EIP_155_SIG_PREFIX,
        signature_bytes(v, r, s).subrange(1, 33) == word(r),
        signature_bytes(v, r, s).subrange(33, 65) == word(s),
        signature_bytes(v, r, s).subrange(1, 65) == word(r) + word(s),
        signature_bytes(v, r, s).skip(65) == be_bytes(magnitude(v)),
{
    let sig = signature_bytes(v, r, s);
    assert(sig.subrange(1, 33) =~= word(r));
    assert(sig.subrange(33, 65) =~= word(s));
    assert(sig.subrange(1, 65) =~= word(r) + word(s));
    assert(sig.skip(65) =~= be_bytes(magnitude(v)));
}

/// A transaction for any chain takes the bytes of a signature whose `v` names that chain, and gets
/// the `v`, `r` and `s` that the bytes were made of.
pub proof fn law_take_signature_bytes(eth_chain_id: EthChainId, v: int, r: int, s: int)
    requires
        derivable(v),
        chain_id_check(eth_chain_id, v) is Ok,
        0 <= r < pow(256, 32),
        0 <= s < pow(256, 32),
    ensures
        signature_v(signature_bytes(v, r, s)) == v,
        taken_signature(eth_chain_id, SignatureType::Delegated, signature_bytes(v, r, s)) == Ok::<
            (int, int, int),
            Eip155Error,
        >((v, r, s)),
{
    law_chain_id_check(eth_chain_id, v);
    lemma_word_len(r);
    lemma_word_len(s);
    lemma_signature_parts(v, r, s);
    lemma_be_value_of_be_bytes(v as nat);
}

/// Taking the signature that a transaction makes gives back its `v`, `r` and `s`.
pub proof fn law_take_made_signature(v: int, r: int, s: int, sig: Seq<u8>)
    requires
        derivable(v),
        r >= 0,
        s >= 0,
        made_signature(v, r, s) == Ok::<Seq<u8>, Eip155Error>(sig),
    ensures
        derivable(signature_v(sig)),
        taken_signature(EIP155_CHAIN_ID, SignatureType::Delegated, sig) == Ok::<
            (int, int, int),
            Eip155Error,
        >((v, r, s)),
{
    law_made_signature(v, r, s);
    law_take_signature_bytes(EIP155_CHAIN_ID, v, r, s);
}

/// A transaction that has taken a signature makes that signature.
pub proof fn law_make_taken_signature(sig: Seq<u8>, v: int, r: int, s: int)
    requires
        is_framed(EIP155_CHAIN_ID, sig) ==> derivable(signature_v(sig)),
        taken_signature(EIP155_CHAIN_ID, SignatureType::Delegated, sig) == Ok::<
            (int, int, int),
            Eip155Error,
        >((v, r, s)),
    ensures
        derivable(v),
        made_signature(v, r, s) == Ok::<Seq<u8>, Eip155Error>(sig),
{
    law_chain_id_check(EIP155_CHAIN_ID, v);
    lemma_chain_v_len();
    lemma_zero_padded_of_be_value(sig.subrange(1, 33));
    lemma_zero_padded_of_be_value(sig.subrange(33, 65));
    lemma_zero_padded_of_be_value(sig.skip(65));
    assert(zero_padded(be_bytes(v as nat), 3) =~= be_bytes(v as nat));
    assert(sig =~= signature_bytes(v, r, s));
}

/// The verifiable form of the signature that a transaction makes is `r`, `s` and one byte, which
/// is 0 or 1 and tells the two values of `v` for the chain apart.
pub proof fn law_verifiable_made_signature(v: int, r: int, s: int, sig: Seq<u8>)
    requires
        derivable(v),
        made_signature(v, r, s) == Ok::<Seq<u8>, Eip155Error>(sig),
    ensures
        derivable(signature_v(sig)),
        0 <= v - 2 * EIP155_CHAIN_ID - 35 <= 1,
        (word(r) + word(s)).len() == 64,
        verifiable_signature(sig) == Ok::<Seq<u8>, Eip155Error>(
            (word(r) + word(s)).push((v - 2 * EIP155_CHAIN_ID - 35) as u8),
        ),
{
    law_made_signature(v, r, s);
    law_chain_id_check(EIP155_CHAIN_ID, v);
    lemma_word_len(r);
    lemma_word_len(s);
    lemma_signature_parts(v, r, s);
    lemma_be_value_of_be_bytes(v as nat);
}

/// The verifiable form of a signature always has 65 bytes and ends in 0 or 1.
pub proof fn law_verifiable_signature_form(sig: Seq<u8>, verifiable: Seq<u8>)
    requires
        verifiable_signature(sig) == Ok::<Seq<u8>, Eip155Error>(verifiable),
        derivable(signature_v(sig)),
    ensures
        verifiable.len() == 65,
        verifiable[64] == 0 || verifiable[64] == 1,
{
    law_chain_id_check(EIP155_CHAIN_ID, signature_v(sig));
    lemma_chain_v_len();
}

/// The bytes that have a verifiable form are those that a transaction for the chain takes as a
/// delegated signature, and the others fail alike.
pub proof fn law_verifiable_where_taken(sig: Seq<u8>)
    requires
        is_framed(EIP155_CHAIN_ID, sig) ==> derivable(signature_v(sig)),
    ensures
        match (
            verifiable_signature(sig),
            taken_signature(EIP155_CHAIN_ID, SignatureType::Delegated, sig),
        ) {
            (Ok(_), Ok(_)) => true,
            (Err(a), Err(b)) => a == b,
            _ => false,
        },
{
}

/// The `v` of a signature that a transaction has taken names the chain of the transaction.
pub proof fn law_taken_v_names_chain(
    eth_chain_id: EthChainId,
    sig_type: SignatureType,
    sig: Seq<u8>,
    v: int,
    r: int,
    s: int,
)
    requires
        is_framed(eth_chain_id, sig) ==> derivable(signature_v(sig)),
        taken_signature(eth_chain_id, sig_type, sig) == Ok::<(int, int, int), Eip155Error>(
            (v, r, s),
        ),
    ensures
        derived_chain_id(v) == Some(eth_chain_id as int),
        0 <= r < pow(256, 32),
        0 <= s < pow(256, 32),
{
    lemma_eip155_sig_len_range(eth_chain_id, 35);
    lemma_eip155_sig_len_range(eth_chain_id, 36);
    lemma_be_value_upper(sig.subrange(1, 33));
    lemma_be_value_upper(sig.subrange(33, 65));
}

/// What is signed does not depend on a signature, nor on the chain that a transaction names: it
/// always holds the one chain.
pub proof fn law_unsigned_message_ignores(tx: TxView, chain_id: EthChainId, v: int, r: int, s: int)
    ensures
        unsigned_message(TxView { chain_id, v, r, s, ..tx }) == unsigned_message(tx),
{
}

/// The serialized transaction does not hold the chain as a field.
pub proof fn law_signed_message_ignores_chain_id(tx: TxView, chain_id: EthChainId)
    ensures
        signed_message(TxView { chain_id, ..tx }) == signed_message(tx),
{
}

} // verus!
