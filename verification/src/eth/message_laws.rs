//! What an encoded transaction holds, item by item, and what a message makes of a transaction.

use crate::eth::big_endian::{
    be_trimmed, be_value, lemma_be_bytes_len, lemma_be_value_of_be_bytes,
};
use crate::eth::builder::{built, missing_field, with_message, BuilderView};
use crate::eth::eip_155_transaction::{
    digest_fields, signed_fields, signed_message, unsigned_fields, unsigned_message,
    EthLegacyEip155TxArgs, TxView,
};
use crate::eth::format::address_bytes;
use crate::eth::rlp_stream::{
    appended, contents, rlp_list, rlp_list_of, rlp_payload, rlp_prefix, rlp_string,
};
use crate::eth::types::{EthAddress, Message};
use vstd::arithmetic::power::pow;
use vstd::prelude::*;

verus! {

/// Whether `item` is the shortest byte string that spells `n`.
pub open spec fn spells(item: Seq<u8>, n: int) -> bool {
    be_value(item) == n && (item.len() > 0 ==> item[0] != 0)
}

/// A byte string spells a number where its value is that number and it does not start with zero.
pub proof fn law_spells(item: Seq<u8>, n: int)
    ensures
        spells(item, n) ==> be_value(item) == n,
        spells(item, n) && item.len() > 0 ==> item[0] != 0,
{
}

/// The parts of a prefix.
proof fn lemma_prefix_parts(base: nat, len: nat, data: Seq<u8>)
    requires
        base == 0x80 || base == 0xc0,
    ensures
        len <= 55 ==> rlp_prefix(base, len) == seq![(base + len) as u8],
        len > 55 ==> ({
            let coded = rlp_prefix(base, len) + data;
            let k = coded[0] - base - 55;
            &&& 0 <= k <= 4
            &&& coded.len() == 1 + k + data.len()
            &&& be_value(coded.subrange(1, 1 + k)) == len % 0x1_0000_0000
            &&& k > 0 ==> coded[1] != 0
            &&& coded.skip(1 + k) == data
        }),
{
    if len > 55 {
        let n = len % 0x1_0000_0000;
        let size = be_trimmed(n);
        let coded = rlp_prefix(base, len) + data;
        lemma_be_value_of_be_bytes(n);
        assert(pow(256, 4) == 0x1_0000_0000) by {
            reveal_with_fuel(pow, 5);
        }
        lemma_be_bytes_len(n, 4);
        assert(coded.subrange(1, 1 + size.len() as int) =~= size);
        assert(coded.skip(1 + size.len() as int) =~= data);
    }
}

/// A byte string of one byte below 0x80 stands for itself. Any other is preceded by its length: up
/// to 55 in one byte, and beyond that in up to four bytes, which a byte before them counts.
pub proof fn law_rlp_string(data: Seq<u8>)
    ensures
        data.len() == 1 && data[0] < 0x80 ==> rlp_string(data) == data,
        data.len() == 1 && data[0] >= 0x80 ==> rlp_string(data) == seq![0x81u8, data[0]],
        data.len() <= 55 && data.len() != 1 ==> rlp_string(data) == seq![(0x80 + data.len()) as u8]
            + data,
        data.len() > 55 ==> ({
            let coded = rlp_string(data);
            let k = coded[0] - 0xb7;
            &&& 0 <= k <= 4
            &&& coded.len() == 1 + k + data.len()
            &&& be_value(coded.subrange(1, 1 + k)) == data.len() % 0x1_0000_0000
            &&& k > 0 ==> coded[1] != 0
            &&& coded.skip(1 + k) == data
        }),
{
    lemma_prefix_parts(0x80, data.len(), data);
    if data.len() == 1 && data[0] >= 0x80 {
        assert(rlp_string(data) =~= seq![0x81u8, data[0]]);
    }
}

/// A list is its encoded items, preceded by how many bytes they take together: up to 55 in one
/// byte, and beyond that in up to four bytes, which a byte before them counts.
pub proof fn law_rlp_list(payload: Seq<u8>)
    ensures
        payload.len() <= 55 ==> rlp_list(payload) == seq![(0xc0 + payload.len()) as u8] + payload,
        payload.len() > 55 ==> ({
            let coded = rlp_list(payload);
            let k = coded[0] - 0xf7;
            &&& 0 <= k <= 4
            &&& coded.len() == 1 + k + payload.len()
            &&& be_value(coded.subrange(1, 1 + k)) == payload.len() % 0x1_0000_0000
            &&& k > 0 ==> coded[1] != 0
            &&& coded.skip(1 + k) == payload
        }),
{
    lemma_prefix_parts(0xc0, payload.len(), payload);
}

/// The items of a list are encoded one after another, in order, and nothing else is between them.
pub proof fn law_rlp_items(items: Seq<Seq<u8>>, item: Seq<u8>)
    ensures
        rlp_list_of(Seq::empty()) == seq![0xc0u8],
        rlp_payload(Seq::empty()) == Seq::<u8>::empty(),
        rlp_payload(items.push(item)) == rlp_payload(items) + rlp_string(item),
        rlp_list_of(items) == rlp_list(rlp_payload(items)),
{
    assert(items.push(item).drop_last() =~= items);
    law_rlp_list(Seq::empty());
    assert(rlp_payload(Seq::empty()) =~= Seq::<u8>::empty());
    assert(rlp_list_of(Seq::empty()) =~= seq![0xc0u8]);
}

/// What vectors hold is taken item by item, in order.
pub proof fn law_contents(items: Seq<Vec<u8>>)
    ensures
        contents(items).len() == items.len(),
        forall|i: int| 0 <= i < items.len() ==> #[trigger] contents(items)[i] == items[i]@,
{
}

/// What is added to a stream is added behind its innermost level, and the others stay.
pub proof fn law_appended(levels: Seq<Seq<u8>>, last: Seq<u8>, encoded: Seq<u8>)
    ensures
        appended(levels.push(last), encoded) == levels.push(last + encoded),
{
    assert(appended(levels.push(last), encoded) =~= levels.push(last + encoded));
}

/// Each field of a transaction is seen as what it is.
pub proof fn law_transaction_view(tx: EthLegacyEip155TxArgs)
    ensures
        tx@.chain_id == tx.chain_id,
        tx@.nonce == tx.nonce,
        tx@.gas_price == tx.gas_price@,
        tx@.gas_limit == tx.gas_limit,
        tx@.to == tx.to,
        tx@.value == tx.value@,
        tx@.input == tx.input@,
        tx@.v == tx.v@,
        tx@.r == tx.r@,
        tx@.s == tx.s@,
{
}

/// A recipient is its twenty bytes, and no recipient is none.
pub proof fn law_address_bytes(address: EthAddress)
    ensures
        address_bytes(Some(address)) == address.0@,
        address_bytes(Some(address)).len() == 20,
        address_bytes(None) == Seq::<u8>::empty(),
{
}

/// The shortest bytes of a number spell it.
proof fn lemma_trimmed_spells(n: nat)
    ensures
        spells(be_trimmed(n), n as int),
{
    lemma_be_value_of_be_bytes(n);
}

/// Before the signature stand, in this order, the nonce, the gas price, the gas limit, the
/// recipient, the value and the input.
pub proof fn law_unsigned_fields(tx: TxView)
    requires
        tx.gas_price >= 0,
        tx.value >= 0,
    ensures
        unsigned_fields(tx).len() == 6,
        spells(unsigned_fields(tx)[0], tx.nonce as int),
        spells(unsigned_fields(tx)[1], tx.gas_price),
        spells(unsigned_fields(tx)[2], tx.gas_limit as int),
        tx.to matches Some(address) ==> unsigned_fields(tx)[3] == address.0@,
        tx.to is None ==> unsigned_fields(tx)[3].len() == 0,
        spells(unsigned_fields(tx)[4], tx.value),
        unsigned_fields(tx)[5] == tx.input,
{
    lemma_trimmed_spells(tx.nonce as nat);
    lemma_trimmed_spells(tx.gas_price as nat);
    lemma_trimmed_spells(tx.gas_limit as nat);
    lemma_trimmed_spells(tx.value as nat);
}

/// The fields of a signed transaction are nine: the nonce, the gas price, the gas limit, the
/// recipient, the value, the input, `v`, `r` and `s`. Each number stands in its shortest bytes.
pub proof fn law_signed_fields(tx: TxView)
    requires
        tx.gas_price >= 0,
        tx.value >= 0,
        tx.v >= 0,
        tx.r >= 0,
        tx.s >= 0,
    ensures
        signed_fields(tx).len() == 9,
        be_value(signed_fields(tx)[0]) == tx.nonce,
        be_value(signed_fields(tx)[1]) == tx.gas_price,
        be_value(signed_fields(tx)[2]) == tx.gas_limit,
        tx.to matches Some(address) ==> signed_fields(tx)[3] == address.0@,
        tx.to is None ==> signed_fields(tx)[3].len() == 0,
        be_value(signed_fields(tx)[4]) == tx.value,
        signed_fields(tx)[5] == tx.input,
        be_value(signed_fields(tx)[6]) == tx.v,
        be_value(signed_fields(tx)[7]) == tx.r,
        be_value(signed_fields(tx)[8]) == tx.s,
        forall|i: int|
            0 <= i < 9 && i != 3 && i != 5 && (#[trigger] signed_fields(tx)[i]).len() > 0
                ==> signed_fields(tx)[i][0] != 0,
{
    law_unsigned_fields(tx);
    lemma_trimmed_spells(tx.v as nat);
    lemma_trimmed_spells(tx.r as nat);
    lemma_trimmed_spells(tx.s as nat);
    let fields = signed_fields(tx);
    let front = unsigned_fields(tx);
    assert(fields[0] == front[0] && fields[1] == front[1] && fields[2] == front[2]);
    assert(fields[3] == front[3] && fields[4] == front[4] && fields[5] == front[5]);
    assert(fields[6] == be_trimmed(tx.v as nat));
    assert(fields[7] == be_trimmed(tx.r as nat));
    assert(fields[8] == be_trimmed(tx.s as nat));
}

/// A transaction is encoded exactly where none of its numbers is negative, as the list of nine byte
/// strings that hold, in this order, the nonce, the gas price, the gas limit, the recipient, the
/// value, the input, `v`, `r` and `s`.
pub proof fn law_signed_message_items(tx: TxView)
    ensures
        signed_message(tx) is Ok <==> tx.gas_price >= 0 && tx.value >= 0 && tx.v >= 0 && tx.r >= 0
            && tx.s >= 0,
        signed_message(tx) matches Ok(message) ==> exists|items: Seq<Seq<u8>>|
            {
                &&& message == #[trigger] rlp_list_of(items)
                &&& items.len() == 9
                &&& be_value(items[0]) == tx.nonce
                &&& be_value(items[1]) == tx.gas_price
                &&& be_value(items[2]) == tx.gas_limit
                &&& items[3] == (match tx.to {
                    Some(address) => address.0@,
                    None => Seq::empty(),
                })
                &&& be_value(items[4]) == tx.value
                &&& items[5] == tx.input
                &&& be_value(items[6]) == tx.v
                &&& be_value(items[7]) == tx.r
                &&& be_value(items[8]) == tx.s
                &&& forall|i: int|
                    0 <= i < 9 && i != 3 && i != 5 && (#[trigger] items[i]).len() > 0 ==> items[i][0]
                        != 0
            },
{
    if tx.gas_price >= 0 && tx.value >= 0 && tx.v >= 0 && tx.r >= 0 && tx.s >= 0 {
        law_signed_fields(tx);
        let items = signed_fields(tx);
        assert(items[3] =~= (match tx.to {
            Some(address) => address.0@,
            None => Seq::empty(),
        }));
        assert(signed_message(tx)->Ok_0 == rlp_list_of(items));
    }
}

/// What is signed of a transaction is what the transaction with chain 314159 for its `v`, and zeros
/// for its `r` and `s`, would be encoded as.
pub proof fn law_unsigned_message_is_signed_for_chain(tx: TxView)
    ensures
        unsigned_message(tx) == signed_message(TxView { v: 314159, r: 0, s: 0, ..tx }),
{
    assert(digest_fields(tx) =~= signed_fields(TxView { v: 314159, r: 0, s: 0, ..tx }));
}

/// What is signed of a transaction is encoded exactly where its gas price and its value are not
/// negative, as the list of nine byte strings that hold, in this order, the nonce, the gas price,
/// the gas limit, the recipient, the value, the input, chain 314159, and nothing twice.
pub proof fn law_unsigned_message_items(tx: TxView)
    ensures
        unsigned_message(tx) is Ok <==> tx.gas_price >= 0 && tx.value >= 0,
        unsigned_message(tx) matches Ok(message) ==> exists|items: Seq<Seq<u8>>|
            {
                &&& message == #[trigger] rlp_list_of(items)
                &&& items.len() == 9
                &&& be_value(items[0]) == tx.nonce
                &&& be_value(items[1]) == tx.gas_price
                &&& be_value(items[2]) == tx.gas_limit
                &&& items[3] == (match tx.to {
                    Some(address) => address.0@,
                    None => Seq::empty(),
                })
                &&& be_value(items[4]) == tx.value
                &&& items[5] == tx.input
                &&& items[6] == seq![0x04u8, 0xcb, 0x2f]
                &&& items[7].len() == 0
                &&& items[8].len() == 0
                &&& forall|i: int|
                    0 <= i < 9 && i != 3 && i != 5 && (#[trigger] items[i]).len() > 0 ==> items[i][0]
                        != 0
            },
{
    if tx.gas_price >= 0 && tx.value >= 0 {
        law_unsigned_fields(tx);
        lemma_chain_bytes();
        let items = digest_fields(tx);
        let front = unsigned_fields(tx);
        assert(items[0] == front[0] && items[1] == front[1] && items[2] == front[2]);
        assert(items[3] == front[3] && items[4] == front[4] && items[5] == front[5]);
        assert(items[3] =~= (match tx.to {
            Some(address) => address.0@,
            None => Seq::empty(),
        }));
        assert(items[6] == be_trimmed(314159));
        assert(items[7] == Seq::<u8>::empty() && items[8] == Seq::<u8>::empty());
        assert(unsigned_message(tx)->Ok_0 == rlp_list_of(items));
    }
}

/// The bytes of chain 314159.
proof fn lemma_chain_bytes()
    ensures
        be_trimmed(314159) == seq![0x04u8, 0xcb, 0x2f],
{
    reveal_with_fuel(crate::eth::big_endian::be_bytes, 3);
    assert(be_trimmed(314159) =~= seq![0x04u8, 0xcb, 0x2f]);
}

/// A message sets each field but the chain: its sequence is the nonce, its fee cap the gas price,
/// its gas limit the gas limit and its value the value. What was read of it are the recipient and
/// the input. The signature stays at zero.
pub proof fn law_transaction_of_message(
    builder: BuilderView,
    message: Message,
    params: Seq<u8>,
    to: Option<EthAddress>,
)
    ensures
        with_message(builder, message, params, to).chain_id == builder.chain_id,
        missing_field(with_message(builder, message, params, to)) is None
            <==> builder.chain_id is Some,
        builder.chain_id matches Some(chain_id) ==> ({
            let tx = built(with_message(builder, message, params, to));
            &&& tx.chain_id == chain_id
            &&& tx.nonce == message.sequence
            &&& tx.gas_price == message.gas_fee_cap@
            &&& tx.gas_limit == message.gas_limit
            &&& tx.to == to
            &&& tx.value == message.value@
            &&& tx.input == params
            &&& tx.v == 0
            &&& tx.r == 0
            &&& tx.s == 0
        }),
{
}

/// A message sets the same fields whatever was set before, and a second message replaces the first.
pub proof fn law_message_replaces(
    builder: BuilderView,
    other: BuilderView,
    first: Message,
    message: Message,
    first_params: Seq<u8>,
    params: Seq<u8>,
    first_to: Option<EthAddress>,
    to: Option<EthAddress>,
)
    requires
        builder.chain_id == other.chain_id,
    ensures
        with_message(builder, message, params, to) == with_message(other, message, params, to),
        with_message(with_message(builder, first, first_params, first_to), message, params, to)
            == with_message(builder, message, params, to),
{
}

/// A transaction is built of the fields that were set, each as it was set, and is not signed.
pub proof fn law_built(builder: BuilderView)
    ensures
        builder.chain_id == Some(built(builder).chain_id) || builder.chain_id is None,
        builder.nonce == Some(built(builder).nonce) || builder.nonce is None,
        builder.gas_price == Some(built(builder).gas_price) || builder.gas_price is None,
        builder.gas_limit == Some(built(builder).gas_limit) || builder.gas_limit is None,
        builder.to == Some(built(builder).to) || builder.to is None,
        builder.value == Some(built(builder).value) || builder.value is None,
        builder.input == Some(built(builder).input) || builder.input is None,
        built(builder).v == 0,
        built(builder).r == 0,
        built(builder).s == 0,
{
}

/// No field is missing exactly where all seven are set. Otherwise the name is that of a field that
/// is not set, and all fields before it are.
pub proof fn law_missing_field(builder: BuilderView)
    ensures
        missing_field(builder) is None <==> builder.chain_id is Some && builder.nonce is Some
            && builder.gas_price is Some && builder.gas_limit is Some && builder.to is Some
            && builder.value is Some && builder.input is Some,
        builder.chain_id is None ==> missing_field(builder) == Some("chain_id"@),
        builder.chain_id is Some && builder.nonce is None ==> missing_field(builder) == Some(
            "nonce"@,
        ),
        builder.chain_id is Some && builder.nonce is Some && builder.gas_price is None
            ==> missing_field(builder) == Some("gas_price"@),
        builder.chain_id is Some && builder.nonce is Some && builder.gas_price is Some
            && builder.gas_limit is None ==> missing_field(builder) == Some("gas_limit"@),
        builder.chain_id is Some && builder.nonce is Some && builder.gas_price is Some
            && builder.gas_limit is Some && builder.to is None ==> missing_field(builder) == Some(
            "to"@,
        ),
        builder.chain_id is Some && builder.nonce is Some && builder.gas_price is Some
            && builder.gas_limit is Some && builder.to is Some && builder.value is None
            ==> missing_field(builder) == Some("value"@),
        builder.chain_id is Some && builder.nonce is Some && builder.gas_price is Some
            && builder.gas_limit is Some && builder.to is Some && builder.value is Some
            && builder.input is None ==> missing_field(builder) == Some("input"@),
{
}

} // verus!
