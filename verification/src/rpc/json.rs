//! JSON values as far as they are looked into.

use vstd::prelude::*;

verus! {

/// The JSON value that [`serde_json::Value`] is.
#[verifier::external_type_specification]
#[verifier::external_body]
pub struct ExValue(serde_json::Value);

/// The JSON object that [`serde_json::Map`] is.
#[verifier::external_type_specification]
#[verifier::external_body]
#[verifier::reject_recursive_types(K)]
#[verifier::reject_recursive_types(V)]
pub struct ExMap<K, V>(serde_json::Map<K, V>);

/// The error that [`serde_json::Error`] is.
#[verifier::external_type_specification]
#[verifier::external_body]
pub struct ExError(serde_json::Error);

/// What a JSON object holds: a value for each key.
pub uninterp spec fn object_entries(
    object: serde_json::Map<String, serde_json::Value>,
) -> Map<Seq<char>, serde_json::Value>;

/// The mapping that `pairs` describe. Of pairs with one key the last counts.
pub open spec fn entries_of<V>(pairs: Seq<(Seq<char>, V)>) -> Map<Seq<char>, V>
    decreases pairs.len(),
{
    if pairs.len() == 0 {
        Map::empty()
    } else {
        entries_of(pairs.drop_last()).insert(pairs.last().0, pairs.last().1)
    }
}

/// `pairs` with the texts of their keys.
pub open spec fn keyed<V>(pairs: Seq<(String, V)>) -> Seq<(Seq<char>, V)> {
    pairs.map_values(|pair: (String, V)| (pair.0@, pair.1))
}

/// Whether no two of `pairs` have one key.
pub open spec fn distinct_keys<V>(pairs: Seq<(Seq<char>, V)>) -> bool {
    forall|i: int, j: int|
        0 <= i < j < pairs.len() ==> (#[trigger] pairs[i]).0 != (#[trigger] pairs[j]).0
}

/// With distinct keys, each pair is an entry.
pub proof fn lemma_entries_of_at<V>(pairs: Seq<(Seq<char>, V)>, i: int)
    requires
        distinct_keys(pairs),
        0 <= i < pairs.len(),
    ensures
        entries_of(pairs).dom().contains(pairs[i].0),
        entries_of(pairs)[pairs[i].0] == pairs[i].1,
    decreases pairs.len(),
{
    if i < pairs.len() - 1 {
        let front = pairs.drop_last();
        assert(front[i] == pairs[i]);
        assert(pairs[i].0 != pairs[pairs.len() - 1].0);
        lemma_entries_of_at(front, i);
    }
}

/// Calls `FromIterator` of `serde_json::Map`: the object with these entries, where a later entry
/// replaces an earlier one with its key.
#[verifier::external_body]
pub(crate) fn object_from_iter(pairs: Vec<(String, serde_json::Value)>) -> (r: serde_json::Map<
    String,
    serde_json::Value,
>)
    ensures
        object_entries(r) == entries_of(keyed(pairs@)),
{
    serde_json::Map::from_iter(pairs)
}

/// Calls `IntoIterator` of `serde_json::Map`: the entries of the object, each once. Their order is
/// left open.
#[verifier::external_body]
pub(crate) fn object_into_iter(object: serde_json::Map<String, serde_json::Value>) -> (r: Vec<
    (String, serde_json::Value),
>)
    ensures
        distinct_keys(keyed(r@)),
        entries_of(keyed(r@)) == object_entries(object),
{
    object.into_iter().collect()
}

/// A JSON number, as it reads in each numeric type that holds it.
#[derive(Debug, Clone, Copy, PartialEq, Eq, Structural)]
pub struct JsonNumber {
    /// The bits of the double precision number.
    pub float_bits: Option<u64>,
    pub signed: Option<i64>,
    pub unsigned: Option<u64>,
}

/// A JSON value, opened one level deep.
#[derive(Debug)]
pub enum JsonValue {
    Null,
    Bool(bool),
    Number(JsonNumber),
    String(String),
    Array(Vec<serde_json::Value>),
    Object(serde_json::Map<String, serde_json::Value>),
}

/// What stands where something else was expected.
#[derive(Debug, Clone, PartialEq, Eq)]
pub enum Unexpected {
    Unit,
    Bool(bool),
    /// The bits of a double precision number.
    Float(u64),
    Signed(i64),
    Unsigned(u64),
    Str(String),
    Sequence,
    Mapping,
    /// A number that no numeric type holds.
    OtherNumber,
}

/// What stands where something else was expected, with the text of a string.
pub enum UnexpectedView {
    Unit,
    Bool(bool),
    Float(u64),
    Signed(i64),
    Unsigned(u64),
    Str(Seq<char>),
    Sequence,
    Mapping,
    OtherNumber,
}

impl View for Unexpected {
    type V = UnexpectedView;

    open spec fn view(&self) -> UnexpectedView {
        match self {
            Unexpected::Unit => UnexpectedView::Unit,
            Unexpected::Bool(it) => UnexpectedView::Bool(*it),
            Unexpected::Float(it) => UnexpectedView::Float(*it),
            Unexpected::Signed(it) => UnexpectedView::Signed(*it),
            Unexpected::Unsigned(it) => UnexpectedView::Unsigned(*it),
            Unexpected::Str(it) => UnexpectedView::Str(it@),
            Unexpected::Sequence => UnexpectedView::Sequence,
            Unexpected::Mapping => UnexpectedView::Mapping,
            Unexpected::OtherNumber => UnexpectedView::OtherNumber,
        }
    }
}

/// What `value` is called where something else was expected. Every number that has a double
/// precision form counts as such a number.
pub open spec fn unexpected_of(value: JsonValue) -> UnexpectedView {
    match value {
        JsonValue::Null => UnexpectedView::Unit,
        JsonValue::Bool(it) => UnexpectedView::Bool(it),
        JsonValue::Number(it) => match it.float_bits {
            Some(bits) => UnexpectedView::Float(bits),
            None => match it.signed {
                Some(signed) => UnexpectedView::Signed(signed),
                None => match it.unsigned {
                    Some(unsigned) => UnexpectedView::Unsigned(unsigned),
                    None => UnexpectedView::OtherNumber,
                },
            },
        },
        JsonValue::String(it) => UnexpectedView::Str(it@),
        JsonValue::Array(_) => UnexpectedView::Sequence,
        JsonValue::Object(_) => UnexpectedView::Mapping,
    }
}

/// What `value` is called where something else was expected.
pub fn unexpected(value: &JsonValue) -> (r: Unexpected)
    ensures
        r@ == unexpected_of(*value),
{
    match value {
        JsonValue::Null => Unexpected::Unit,
        JsonValue::Bool(it) => Unexpected::Bool(*it),
        JsonValue::Number(it) => match (it.float_bits, it.signed, it.unsigned) {
            (None, None, None) => Unexpected::OtherNumber,
            (Some(it), _, _) => Unexpected::Float(it),
            (_, Some(it), _) => Unexpected::Signed(it),
            (_, _, Some(it)) => Unexpected::Unsigned(it),
        },
        JsonValue::String(it) => Unexpected::Str(it.clone()),
        JsonValue::Array(_) => Unexpected::Sequence,
        JsonValue::Object(_) => Unexpected::Mapping,
    }
}

} // verus!
