//! What is encoded can be told apart.

use crate::eth::big_endian::{be_trimmed, lemma_be_bytes_len, lemma_be_value_of_be_bytes};
use crate::eth::eip_155_transaction::{
    digest_fields, signed_fields, signed_message, unsigned_fields, unsigned_message, TxView,
    EIP155_CHAIN_ID,
};
use crate::eth::format::address_bytes;
use crate::eth::rlp_stream::{rlp_list, rlp_list_of, rlp_payload, rlp_prefix, rlp_string};
use crate::eth::types::EthAddress;
use vstd::arithmetic::power::pow;
use vstd::prelude::*;

verus! {

/// Whether every byte string is shorter than 2 to the power 32, so that its length is written out.
pub open spec fn all_short(items: Seq<Seq<u8>>) -> bool {
    forall|i: int| 0 <= i < items.len() ==> (#[trigger] items[i]).len() < 0x1_0000_0000
}

/// Equal encodings of numbers are of equal numbers.
proof fn lemma_be_trimmed_injective(n: nat, m: nat)
    requires
        be_trimmed(n) == be_trimmed(m),
    ensures
        n == m,
{
    lemma_be_value_of_be_bytes(n);
    lemma_be_value_of_be_bytes(m);
}

/// The form of a prefix.
proof fn lemma_prefix_form(base: nat, len: nat)
    requires
        base == 0x80 || base == 0xc0,
        len < 0x1_0000_0000,
    ensures
        len <= 55 ==> rlp_prefix(base, len) == seq![(base + len) as u8],
        len > 55 ==> rlp_prefix(base, len) == seq![(base + 55 + be_trimmed(len).len()) as u8]
            + be_trimmed(len) && 1 <= be_trimmed(len).len() <= 4,
{
    if len > 55 {
        lemma_be_value_of_be_bytes(len);
        assert(pow(256, 4) == 0x1_0000_0000) by {
            reveal_with_fuel(pow, 5);
        }
        lemma_be_bytes_len(len, 4);
    }
}

/// A prefix tells its length, and where it ends.
proof fn lemma_prefix_unambiguous(base: nat, n: nat, m: nat, x: Seq<u8>, y: Seq<u8>)
    requires
        base == 0x80 || base == 0xc0,
        n < 0x1_0000_0000,
        m < 0x1_0000_0000,
        rlp_prefix(base, n) + x == rlp_prefix(base, m) + y,
    ensures
        n == m,
        x == y,
{
    let w = rlp_prefix(base, n) + x;
    lemma_prefix_form(base, n);
    lemma_prefix_form(base, m);
    assert(w[0] == rlp_prefix(base, n)[0]);
    assert(w[0] == rlp_prefix(base, m)[0]);
    if n > 55 {
        let k = be_trimmed(n).len() as int;
        assert(w.subrange(1, 1 + k) =~= be_trimmed(n));
        assert(w.subrange(1, 1 + k) =~= be_trimmed(m));
        lemma_be_trimmed_injective(n, m);
    }
    let p = rlp_prefix(base, n).len() as int;
    assert(w.skip(p) =~= x);
    assert(w.skip(p) =~= y);
}

/// The encoding of a byte string tells the string, and where it ends.
proof fn lemma_string_unambiguous(a: Seq<u8>, b: Seq<u8>, x: Seq<u8>, y: Seq<u8>)
    requires
        a.len() < 0x1_0000_0000,
        b.len() < 0x1_0000_0000,
        rlp_string(a) + x == rlp_string(b) + y,
    ensures
        a == b,
        x == y,
{
    let w = rlp_string(a) + x;
    lemma_prefix_form(0x80, a.len());
    lemma_prefix_form(0x80, b.len());
    assert(w[0] == rlp_string(a)[0]);
    assert(w[0] == rlp_string(b)[0]);
    if a.len() == 1 && a[0] < 0x80 {
        assert(a =~= seq![w[0]]);
        assert(b =~= seq![w[0]]);
        assert(w.skip(1) =~= x);
        assert(w.skip(1) =~= y);
    } else {
        assert(w =~= rlp_prefix(0x80, a.len()) + (a + x));
        assert(w =~= rlp_prefix(0x80, b.len()) + (b + y));
        lemma_prefix_unambiguous(0x80, a.len(), b.len(), a + x, b + y);
        let n = a.len() as int;
        assert((a + x).take(n) =~= a);
        assert((b + y).take(n) =~= b);
        assert((a + x).skip(n) =~= x);
        assert((b + y).skip(n) =~= y);
    }
}

/// The encodings of a list of byte strings start with that of the first.
proof fn lemma_payload_first(items: Seq<Seq<u8>>)
    requires
        items.len() > 0,
    ensures
        rlp_payload(items) == rlp_string(items[0]) + rlp_payload(items.drop_first()),
    decreases items.len(),
{
    let front = items.drop_last();
    if front.len() == 0 {
        assert(rlp_payload(front) =~= Seq::empty());
        assert(rlp_payload(items.drop_first()) =~= Seq::empty());
        assert(rlp_payload(items) =~= rlp_string(items[0]) + rlp_payload(items.drop_first()));
    } else {
        lemma_payload_first(front);
        assert(front.drop_first() =~= items.drop_first().drop_last());
        assert(rlp_payload(items) =~= rlp_string(items[0]) + rlp_payload(items.drop_first()));
    }
}

/// The encodings of equally many byte strings tell the strings.
proof fn lemma_payload_unambiguous(a: Seq<Seq<u8>>, b: Seq<Seq<u8>>)
    requires
        a.len() == b.len(),
        all_short(a),
        all_short(b),
        rlp_payload(a) == rlp_payload(b),
    ensures
        a == b,
    decreases a.len(),
{
    if a.len() > 0 {
        lemma_payload_first(a);
        lemma_payload_first(b);
        lemma_string_unambiguous(
            a[0],
            b[0],
            rlp_payload(a.drop_first()),
            rlp_payload(b.drop_first()),
        );
        lemma_payload_unambiguous(a.drop_first(), b.drop_first());
        assert(a =~= seq![a[0]] + a.drop_first());
        assert(b =~= seq![b[0]] + b.drop_first());
    } else {
        assert(a =~= b);
    }
}

/// The length of a prefix is told by its first byte.
proof fn lemma_prefix_len(n: nat)
    ensures
        n <= 55 ==> rlp_prefix(0xc0, n).len() == 1 && rlp_prefix(0xc0, n)[0] == 0xc0 + n,
        n > 55 ==> 1 <= rlp_prefix(0xc0, n).len() <= 5 && rlp_prefix(0xc0, n)[0] == 0xf6
            + rlp_prefix(0xc0, n).len(),
{
    if n > 55 {
        let size = n % 0x1_0000_0000;
        lemma_be_value_of_be_bytes(size);
        assert(pow(256, 4) == 0x1_0000_0000) by {
            reveal_with_fuel(pow, 5);
        }
        lemma_be_bytes_len(size, 4);
    }
}

/// The encoding of a list of byte strings, all shorter than 2 to the power 32, tells the strings
/// apart from those of every other list of as many.
pub proof fn law_list_unambiguous(a: Seq<Seq<u8>>, b: Seq<Seq<u8>>)
    requires
        a.len() == b.len(),
        all_short(a),
        all_short(b),
        rlp_list_of(a) == rlp_list_of(b),
    ensures
        a == b,
{
    let p = rlp_payload(a);
    let q = rlp_payload(b);
    let w = rlp_list(p);
    lemma_prefix_len(p.len());
    lemma_prefix_len(q.len());
    assert(w[0] == rlp_prefix(0xc0, p.len())[0]);
    assert(w[0] == rlp_prefix(0xc0, q.len())[0]);
    let k = rlp_prefix(0xc0, p.len()).len() as int;
    assert(w.skip(k) =~= p);
    assert(w.skip(k) =~= q);
    lemma_payload_unambiguous(a, b);
}

/// Equal bytes are of equal recipients.
proof fn lemma_address_injective(a: Option<EthAddress>, b: Option<EthAddress>)
    requires
        address_bytes(a) == address_bytes(b),
    ensures
        a == b,
{
    match (a, b) {
        (Some(x), Some(y)) => {
            assert(x.0 =~= y.0);
        },
        (Some(x), None) => {
            assert(x.0@.len() == 20);
        },
        (None, Some(y)) => {
            assert(y.0@.len() == 20);
        },
        (None, None) => {},
    }
}

/// Lists with equally long heads are equal part by part.
proof fn lemma_parts(f: Seq<Seq<u8>>, g: Seq<Seq<u8>>, x: Seq<Seq<u8>>, y: Seq<Seq<u8>>)
    requires
        f.len() == g.len(),
        f + x == g + y,
    ensures
        f == g,
        x == y,
{
    let n = f.len() as int;
    assert((f + x).take(n) =~= f);
    assert((g + y).take(n) =~= g);
    assert((f + x).skip(n) =~= x);
    assert((g + y).skip(n) =~= y);
}

/// Equal fields are of transactions that agree up to the chain and the signature.
proof fn lemma_unsigned_fields_injective(a: TxView, b: TxView)
    requires
        a.gas_price >= 0 && a.value >= 0,
        b.gas_price >= 0 && b.value >= 0,
        unsigned_fields(a) == unsigned_fields(b),
    ensures
        (TxView { chain_id: b.chain_id, v: b.v, r: b.r, s: b.s, ..a }) == b,
{
    let f = unsigned_fields(a);
    let g = unsigned_fields(b);
    assert(a.nonce == b.nonce) by {
        assert(f[0] == g[0]);
        lemma_be_trimmed_injective(a.nonce as nat, b.nonce as nat);
    }
    assert(a.gas_price == b.gas_price) by {
        assert(f[1] == g[1]);
        lemma_be_trimmed_injective(a.gas_price as nat, b.gas_price as nat);
    }
    assert(a.gas_limit == b.gas_limit) by {
        assert(f[2] == g[2]);
        lemma_be_trimmed_injective(a.gas_limit as nat, b.gas_limit as nat);
    }
    assert(a.to == b.to) by {
        assert(f[3] == g[3]);
        lemma_address_injective(a.to, b.to);
    }
    assert(a.value == b.value) by {
        assert(f[4] == g[4]);
        lemma_be_trimmed_injective(a.value as nat, b.value as nat);
    }
    assert(a.input == b.input) by {
        assert(f[5] == g[5]);
    }
}

/// A serialized transaction tells every field but the chain, as long as each field is shorter than
/// 2 to the power 32 bytes.
pub proof fn law_signed_message_unambiguous(a: TxView, b: TxView)
    requires
        signed_message(a) is Ok,
        signed_message(a) == signed_message(b),
        all_short(signed_fields(a)),
        all_short(signed_fields(b)),
    ensures
        (TxView { chain_id: b.chain_id, ..a }) == b,
{
    law_list_unambiguous(signed_fields(a), signed_fields(b));
    let x = seq![be_trimmed(a.v as nat), be_trimmed(a.r as nat), be_trimmed(a.s as nat)];
    let y = seq![be_trimmed(b.v as nat), be_trimmed(b.r as nat), be_trimmed(b.s as nat)];
    lemma_parts(unsigned_fields(a), unsigned_fields(b), x, y);
    lemma_unsigned_fields_injective(a, b);
    assert(x[0] == y[0] && x[1] == y[1] && x[2] == y[2]);
    lemma_be_trimmed_injective(a.v as nat, b.v as nat);
    lemma_be_trimmed_injective(a.r as nat, b.r as nat);
    lemma_be_trimmed_injective(a.s as nat, b.s as nat);
}

/// What is signed tells every field but the chain and the signature, as long as each field is
/// shorter than 2 to the power 32 bytes.
pub proof fn law_unsigned_message_unambiguous(a: TxView, b: TxView)
    requires
        unsigned_message(a) is Ok,
        unsigned_message(a) == unsigned_message(b),
        all_short(digest_fields(a)),
        all_short(digest_fields(b)),
    ensures
        (TxView { chain_id: b.chain_id, v: b.v, r: b.r, s: b.s, ..a }) == b,
{
    law_list_unambiguous(digest_fields(a), digest_fields(b));
    let rest = seq![
        be_trimmed(EIP155_CHAIN_ID as nat),
        Seq::<u8>::empty(),
        Seq::<u8>::empty(),
    ];
    lemma_parts(unsigned_fields(a), unsigned_fields(b), rest, rest);
    lemma_unsigned_fields_injective(a, b);
}

} // verus!
