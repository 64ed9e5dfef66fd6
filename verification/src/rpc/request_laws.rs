//! What arguments become on their way to a request, one by one.

use crate::rpc::json::{
    distinct_keys, entries_of, keyed, object_entries, unexpected_of, JsonValue, Unexpected,
    UnexpectedView,
};
use crate::rpc::laws::lemma_entries_of_keys;
use crate::rpc::params::{
    is_arranged, is_unparsed, named_args, ConcreteCallingConvention, RequestParameters,
    UnparseError,
};
use crate::rpc::reflect::{is_built, params_value};
use vstd::prelude::*;

verus! {

/// Arguments that serialize to an array with an item for each parameter come out as they are, each
/// in its place. No parameters may also serialize to null. Nothing else comes out.
pub proof fn law_unparsed(
    value: Result<JsonValue, serde_json::Error>,
    arity: nat,
    res: Result<Vec<serde_json::Value>, UnparseError>,
)
    requires
        is_unparsed(value, arity, res),
    ensures
        value matches Ok(JsonValue::Array(args)) ==> args@.len() == arity ==> (res matches Ok(out)
            && out@.len() == arity && forall|i: int|
            0 <= i < arity ==> #[trigger] out@[i] == args@[i]),
        value matches Ok(JsonValue::Null) ==> arity == 0 ==> (res matches Ok(out) && out@.len()
            == 0),
        res matches Ok(out) ==> out@.len() == arity,
        res is Ok <==> ((value matches Ok(JsonValue::Array(args)) && args@.len() == arity) || (
        value matches Ok(JsonValue::Null) && arity == 0)),
{
}

/// Each failure says why: the arguments did not serialize, there are more or fewer of them than
/// parameters, or they are no array.
pub proof fn law_unparse_errors(
    value: Result<JsonValue, serde_json::Error>,
    arity: nat,
    res: Result<Vec<serde_json::Value>, UnparseError>,
)
    requires
        is_unparsed(value, arity, res),
    ensures
        value matches Err(error) ==> (res matches Err(UnparseError::Json(reported)) && reported
            == error),
        res matches Err(UnparseError::Json(error)) ==> value == Err::<JsonValue, serde_json::Error>(
            error,
        ),
        res matches Err(UnparseError::ArityMismatch) ==> (value matches Ok(JsonValue::Array(args))
            && args@.len() != arity),
        value matches Ok(JsonValue::Array(args)) ==> args@.len() != arity ==> res matches Err(
            UnparseError::ArityMismatch,
        ),
        res matches Err(UnparseError::InvalidType(what)) ==> (value matches Ok(it) && it !is Array
            && !(it is Null && arity == 0) && what@ == unexpected_of(it)),
{
}

/// What is unexpected is called by what it is. A number is called by the first of these forms that
/// it has: double precision, signed, unsigned.
pub proof fn law_unexpected(value: JsonValue)
    ensures
        value is Null <==> unexpected_of(value) is Unit,
        value matches JsonValue::Bool(it) ==> unexpected_of(value) == UnexpectedView::Bool(it),
        value matches JsonValue::String(it) ==> unexpected_of(value) == UnexpectedView::Str(it@),
        value is Array <==> unexpected_of(value) is Sequence,
        value is Object <==> unexpected_of(value) is Mapping,
        value matches JsonValue::Number(it) ==> {
            &&& it.float_bits matches Some(bits) ==> unexpected_of(value) == UnexpectedView::Float(
                bits,
            )
            &&& it.float_bits is None ==> (it.signed matches Some(signed) ==> unexpected_of(value)
                == UnexpectedView::Signed(signed))
            &&& it.float_bits is None && it.signed is None ==> (it.unsigned matches Some(unsigned)
                ==> unexpected_of(value) == UnexpectedView::Unsigned(unsigned))
            &&& it.float_bits is None && it.signed is None && it.unsigned is None ==> unexpected_of(
                value,
            ) is OtherNumber
        },
{
}

/// What is unexpected is seen as what it is.
pub proof fn law_unexpected_view(it: Unexpected)
    ensures
        it is Unit <==> it@ is Unit,
        it matches Unexpected::Bool(value) ==> it@ == UnexpectedView::Bool(value),
        it matches Unexpected::Float(bits) ==> it@ == UnexpectedView::Float(bits),
        it matches Unexpected::Signed(value) ==> it@ == UnexpectedView::Signed(value),
        it matches Unexpected::Unsigned(value) ==> it@ == UnexpectedView::Unsigned(value),
        it matches Unexpected::Str(text) ==> it@ == UnexpectedView::Str(text@),
        it is Sequence <==> it@ is Sequence,
        it is Mapping <==> it@ is Mapping,
        it is OtherNumber <==> it@ is OtherNumber,
{
}

/// Pairs keep their order, their values and the texts of their keys.
pub proof fn law_keyed<V>(pairs: Seq<(String, V)>)
    ensures
        keyed(pairs).len() == pairs.len(),
        forall|i: int|
            0 <= i < pairs.len() ==> (#[trigger] keyed(pairs)[i]).0 == pairs[i].0@ && keyed(
                pairs,
            )[i].1 == pairs[i].1,
{
}

/// Keys are distinct where none stands twice among them.
pub proof fn law_distinct_keys<V>(pairs: Seq<(Seq<char>, V)>)
    ensures
        distinct_keys(pairs) <==> Seq::new(pairs.len(), |i: int| pairs[i].0).no_duplicates(),
{
    let keys = Seq::new(pairs.len(), |i: int| pairs[i].0);
    if keys.no_duplicates() {
        assert forall|i: int, j: int| 0 <= i < j < pairs.len() implies (#[trigger] pairs[i]).0 != (
        #[trigger] pairs[j]).0 by {
            assert(keys[i] != keys[j]);
        }
    }
    if distinct_keys(pairs) {
        assert forall|i: int, j: int|
            0 <= i < keys.len() && 0 <= j < keys.len() && i != j implies keys[i] != keys[j] by {
            if i < j {
                assert(pairs[i].0 != pairs[j].0);
            } else {
                assert(pairs[j].0 != pairs[i].0);
            }
        }
    }
}

/// The last pair of a key.
proof fn lemma_last_pair<V>(pairs: Seq<(Seq<char>, V)>, i: int)
    requires
        0 <= i < pairs.len(),
        forall|j: int| i < j < pairs.len() ==> (#[trigger] pairs[j]).0 != pairs[i].0,
    ensures
        entries_of(pairs).dom().contains(pairs[i].0),
        entries_of(pairs)[pairs[i].0] == pairs[i].1,
    decreases pairs.len(),
{
    if i < pairs.len() - 1 {
        let front = pairs.drop_last();
        assert(pairs[pairs.len() - 1].0 != pairs[i].0);
        assert forall|j: int| i < j < front.len() implies (#[trigger] front[j]).0 != front[i].0 by {
            assert(pairs[j].0 != pairs[i].0);
        }
        lemma_last_pair(front, i);
    }
}

/// Under each key stands the value of the last pair with that key, and there are no other keys.
pub proof fn law_entries<V>(pairs: Seq<(Seq<char>, V)>)
    ensures
        forall|i: int|
            0 <= i < pairs.len() && (forall|j: int|
                i < j < pairs.len() ==> (#[trigger] pairs[j]).0 != pairs[i].0) ==> entries_of(
                pairs,
            ).dom().contains((#[trigger] pairs[i]).0) && entries_of(pairs)[pairs[i].0]
                == pairs[i].1,
        forall|key: Seq<char>| #[trigger]
            entries_of(pairs).dom().contains(key) ==> exists|i: int|
                0 <= i < pairs.len() && (#[trigger] pairs[i]).0 == key,
{
    assert forall|i: int|
        0 <= i < pairs.len() && (forall|j: int|
            i < j < pairs.len() ==> (#[trigger] pairs[j]).0 != pairs[i].0) implies entries_of(
        pairs,
    ).dom().contains((#[trigger] pairs[i]).0) && entries_of(pairs)[pairs[i].0] == pairs[i].1 by {
        lemma_last_pair(pairs, i);
    }
    assert forall|key: Seq<char>| #[trigger] entries_of(pairs).dom().contains(key) implies exists|
        i: int,
    | 0 <= i < pairs.len() && (#[trigger] pairs[i]).0 == key by {
        lemma_entries_of_keys(pairs, key);
    }
}

/// Each argument is paired with the name in its place.
pub proof fn law_named_pairs(names: Seq<&'static str>, args: Seq<serde_json::Value>)
    requires
        names.len() == args.len(),
    ensures
        named_args(names, args).len() == names.len(),
        forall|i: int|
            0 <= i < names.len() ==> (#[trigger] named_args(names, args)[i]).0 == names[i]@
                && named_args(names, args)[i].1 == args[i],
{
}

/// By position, the arguments stay in their places. By name, each stands under the name in its
/// place, unless that name comes again later, and under no other name stands anything.
pub proof fn law_arranged(
    names: Seq<&'static str>,
    args: Vec<serde_json::Value>,
    calling_convention: ConcreteCallingConvention,
    res: RequestParameters,
)
    requires
        names.len() == args@.len(),
        is_arranged(names, args, calling_convention, res),
    ensures
        calling_convention is ByPosition ==> (res matches RequestParameters::ByPosition(out)
            && out@.len() == args@.len() && forall|i: int|
            0 <= i < args@.len() ==> #[trigger] out@[i] == args@[i]),
        calling_convention is ByName ==> (res matches RequestParameters::ByName(object) && (forall|
            i: int,
        |
            0 <= i < names.len() && (forall|j: int|
                i < j < names.len() ==> (#[trigger] names[j])@ != names[i]@) ==> object_entries(
                object,
            ).dom().contains((#[trigger] names[i])@) && object_entries(object)[names[i]@]
                == args@[i]) && (forall|name: Seq<char>| #[trigger]
            object_entries(object).dom().contains(name) ==> exists|i: int|
                0 <= i < names.len() && (#[trigger] names[i])@ == name)),
{
    if calling_convention is ByName {
        let pairs = named_args(names, args@);
        law_entries(pairs);
        let object = res->ByName_0;
        assert forall|i: int|
            0 <= i < names.len() && (forall|j: int|
                i < j < names.len() ==> (#[trigger] names[j])@ != names[i]@) implies object_entries(
            object,
        ).dom().contains((#[trigger] names[i])@) && object_entries(object)[names[i]@]
            == args@[i] by {
            assert forall|j: int| i < j < pairs.len() implies (#[trigger] pairs[j]).0
                != pairs[i].0 by {
                assert(names[j]@ != names[i]@);
            }
            assert(pairs[i] == (names[i]@, args@[i]));
        }
        assert forall|name: Seq<char>| #[trigger]
            object_entries(object).dom().contains(name) implies exists|i: int|
            0 <= i < names.len() && (#[trigger] names[i])@ == name by {
            let i = choose|i: int| 0 <= i < pairs.len() && (#[trigger] pairs[i]).0 == name;
            assert(names[i]@ == name);
        }
    }
}

/// What is built of the arguments is their arrangement, and what failed before fails alike.
pub proof fn law_built_params(
    names: Seq<&'static str>,
    args: Result<Vec<serde_json::Value>, UnparseError>,
    calling_convention: ConcreteCallingConvention,
    res: Result<RequestParameters, UnparseError>,
)
    requires
        is_built(names, args, calling_convention, res),
    ensures
        args matches Ok(args) ==> (res matches Ok(params) && is_arranged(
            names,
            args,
            calling_convention,
            params,
        )),
        args matches Err(error) ==> res == Err::<RequestParameters, UnparseError>(error),
{
}

/// A request by position holds the array of the arguments that were serialized, each in its place.
pub proof fn law_request_by_position(
    names: Seq<&'static str>,
    value: Result<JsonValue, serde_json::Error>,
    arity: nat,
    args: Result<Vec<serde_json::Value>, UnparseError>,
    res: Result<RequestParameters, UnparseError>,
)
    requires
        names.len() == arity,
        is_unparsed(value, arity, args),
        is_built(names, args, ConcreteCallingConvention::ByPosition, res),
    ensures
        value matches Ok(JsonValue::Array(given)) ==> given@.len() == arity ==> (res matches Ok(
            params,
        ) && params_value(params) matches JsonValue::Array(out) && out@ == given@),
{
    if let Ok(JsonValue::Array(given)) = value {
        if given@.len() == arity {
            law_unparsed(value, arity, args);
            assert(args->Ok_0@ =~= given@);
        }
    }
}

/// Parameters by position are sent as an array, and parameters by name as an object, unchanged.
pub proof fn law_params_value(params: RequestParameters)
    ensures
        params matches RequestParameters::ByPosition(args) ==> params_value(params)
            == JsonValue::Array(args),
        params matches RequestParameters::ByName(object) ==> params_value(params)
            == JsonValue::Object(object),
{
}

} // verus!
