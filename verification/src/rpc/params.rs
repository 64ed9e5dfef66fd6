//! The parameters of a call, on their way from an argument tuple to a request.

use crate::rpc::json::{
    distinct_keys, entries_of, keyed, object_entries, object_from_iter, object_into_iter,
    unexpected, unexpected_of, JsonValue, Unexpected,
};
use vstd::prelude::*;

verus! {

/// How the parameters of a request are given.
#[derive(Debug, Clone, Copy, PartialEq, Eq, Structural)]
pub enum ConcreteCallingConvention {
    ByPosition,
    ByName,
}

/// The parameters of a request.
#[derive(Debug)]
pub enum RequestParameters {
    ByPosition(Vec<serde_json::Value>),
    ByName(serde_json::Map<String, serde_json::Value>),
}

/// Why an argument tuple gives no parameters.
#[derive(Debug)]
pub enum UnparseError {
    /// The arguments did not serialize.
    Json(serde_json::Error),
    /// There are more or fewer arguments than parameters.
    ArityMismatch,
    /// The arguments did not serialize to an array.
    InvalidType(Unexpected),
}

/// Whether `res` is what the serialized arguments `value` give for `arity` parameters.
pub open spec fn is_unparsed(
    value: Result<JsonValue, serde_json::Error>,
    arity: nat,
    res: Result<Vec<serde_json::Value>, UnparseError>,
) -> bool {
    match value {
        Ok(JsonValue::Array(args)) => if args@.len() == arity {
            res == Ok::<Vec<serde_json::Value>, UnparseError>(args)
        } else {
            res == Err::<Vec<serde_json::Value>, UnparseError>(UnparseError::ArityMismatch)
        },
        Ok(it) => if it is Null && arity == 0 {
            res matches Ok(args) && args@.len() == 0
        } else {
            res matches Err(UnparseError::InvalidType(what)) && what@ == unexpected_of(it)
        },
        Err(error) => res == Err::<Vec<serde_json::Value>, UnparseError>(UnparseError::Json(error)),
    }
}

/// The arguments, one for each of `arity` parameters. No arguments may also serialize to null.
pub fn unparse_value(
    value: Result<JsonValue, serde_json::Error>,
    arity: usize,
) -> (res: Result<Vec<serde_json::Value>, UnparseError>)
    ensures
        is_unparsed(value, arity as nat, res),
{
    match value {
        Ok(JsonValue::Array(args)) => {
            if args.len() == arity {
                Ok(args)
            } else {
                Err(UnparseError::ArityMismatch)
            }
        },
        Ok(it) => {
            if arity == 0 {
                if let JsonValue::Null = it {
                    return Ok(Vec::new());
                }
            }
            Err(UnparseError::InvalidType(unexpected(&it)))
        },
        Err(error) => Err(UnparseError::Json(error)),
    }
}

/// Calls `itertools::zip_eq`: the items of `a` and `b` in pairs. With lengths that differ it
/// panics.
#[verifier::external_body]
pub(crate) fn zip_eq<A, B>(a: Vec<A>, b: Vec<B>) -> (r: Vec<(A, B)>)
    requires
        a@.len() == b@.len(),
    ensures
        r@.len() == a@.len(),
        forall|i: int| 0 <= i < r@.len() ==> #[trigger] r@[i] == (a@[i], b@[i]),
{
    itertools::zip_eq(a, b).collect()
}

/// `names` and `args` in pairs.
pub open spec fn named_args(
    names: Seq<&'static str>,
    args: Seq<serde_json::Value>,
) -> Seq<(Seq<char>, serde_json::Value)> {
    Seq::new(names.len(), |i: int| (names[i]@, args[i]))
}

/// Whether `res` holds `args` as `calling_convention` has it.
pub open spec fn is_arranged(
    names: Seq<&'static str>,
    args: Vec<serde_json::Value>,
    calling_convention: ConcreteCallingConvention,
    res: RequestParameters,
) -> bool {
    match calling_convention {
        ConcreteCallingConvention::ByPosition => res == RequestParameters::ByPosition(args),
        ConcreteCallingConvention::ByName => res matches RequestParameters::ByName(object)
            && object_entries(object) == entries_of(named_args(names, args@)),
    }
}

/// The parameters with the arguments `args`, in order or under `names`.
pub fn arrange(
    names: &[&'static str],
    args: Vec<serde_json::Value>,
    calling_convention: ConcreteCallingConvention,
) -> (res: RequestParameters)
    requires
        names@.len() == args@.len(),
    ensures
        is_arranged(names@, args, calling_convention, res),
{
    match calling_convention {
        ConcreteCallingConvention::ByPosition => RequestParameters::ByPosition(args),
        ConcreteCallingConvention::ByName => {
            let owned = owned_names(names);
            let pairs = zip_eq(owned, args);
            assert(keyed(pairs@) =~= named_args(names@, args@));
            RequestParameters::ByName(object_from_iter(pairs))
        },
    }
}

/// `names` as strings of their own.
pub(crate) fn owned_names(names: &[&'static str]) -> (r: Vec<String>)
    ensures
        r@.len() == names@.len(),
        forall|i: int| 0 <= i < r@.len() ==> (#[trigger] r@[i])@ == names@[i]@,
{
    let mut owned: Vec<String> = Vec::new();
    let mut i: usize = 0;
    while i < names.len()
        invariant
            i <= names@.len(),
            owned@.len() == i,
            forall|j: int| 0 <= j < i ==> (#[trigger] owned@[j])@ == names@[j]@,
        decreases names@.len() - i,
    {
        owned.push(names[i].to_owned());
        i = i + 1;
    }
    owned
}

/// The builder that [`jsonrpsee::core::params::ArrayParams`] is.
#[verifier::external_type_specification]
#[verifier::external_body]
pub struct ExArrayParams(jsonrpsee::core::params::ArrayParams);

/// The builder that [`jsonrpsee::core::params::ObjectParams`] is.
#[verifier::external_type_specification]
#[verifier::external_body]
pub struct ExObjectParams(jsonrpsee::core::params::ObjectParams);

/// The values that are in the builder, in order.
pub uninterp spec fn array_items(
    params: jsonrpsee::core::params::ArrayParams,
) -> Seq<serde_json::Value>;

/// The names and values that are in the builder, in order.
pub uninterp spec fn object_items(
    params: jsonrpsee::core::params::ObjectParams,
) -> Seq<(Seq<char>, serde_json::Value)>;

/// Calls `jsonrpsee::core::params::ArrayParams::new`: a builder that holds nothing.
#[verifier::external_body]
pub(crate) fn array_params_new() -> (r: jsonrpsee::core::params::ArrayParams)
    ensures
        array_items(r) == Seq::<serde_json::Value>::empty(),
{
    jsonrpsee::core::params::ArrayParams::new()
}

/// Calls `jsonrpsee::core::params::ArrayParams::insert` on a JSON value: adds the value. It fails
/// only where a value does not serialize, and a JSON value always serializes.
#[verifier::external_body]
pub(crate) fn array_params_insert(
    params: jsonrpsee::core::params::ArrayParams,
    value: serde_json::Value,
) -> (r: Result<jsonrpsee::core::params::ArrayParams, serde_json::Error>)
    ensures
        r is Ok,
        array_items(r->Ok_0) == array_items(params).push(value),
{
    let mut params = params;
    match params.insert(value) {
        Ok(()) => Ok(params),
        Err(error) => Err(error),
    }
}

/// Calls `jsonrpsee::core::params::ObjectParams::new`: a builder that holds nothing.
#[verifier::external_body]
pub(crate) fn object_params_new() -> (r: jsonrpsee::core::params::ObjectParams)
    ensures
        object_items(r) == Seq::<(Seq<char>, serde_json::Value)>::empty(),
{
    jsonrpsee::core::params::ObjectParams::new()
}

/// Calls `jsonrpsee::core::params::ObjectParams::insert` on a JSON value: adds the value under its
/// name. It fails only where a value does not serialize, and a JSON value always serializes.
#[verifier::external_body]
pub(crate) fn object_params_insert(
    params: jsonrpsee::core::params::ObjectParams,
    name: &str,
    value: serde_json::Value,
) -> (r: Result<jsonrpsee::core::params::ObjectParams, serde_json::Error>)
    ensures
        r is Ok,
        object_items(r->Ok_0) == object_items(params).push((name@, value)),
{
    let mut params = params;
    match params.insert(name, value) {
        Ok(()) => Ok(params),
        Err(error) => Err(error),
    }
}

/// The parameters of a request, ready to be sent.
#[derive(Debug)]
pub enum CallParams {
    Array(jsonrpsee::core::params::ArrayParams),
    Object(jsonrpsee::core::params::ObjectParams),
}

/// A builder with `args`, in order.
fn fill_array(args: Vec<serde_json::Value>) -> (res: Result<
    jsonrpsee::core::params::ArrayParams,
    serde_json::Error,
>)
    ensures
        res matches Ok(params) && array_items(params) == args@,
{
    let mut builder = array_params_new();
    for arg in it: args
        invariant
            array_items(builder) =~= args@.take(it.index()),
            it.seq() == args@,
    {
        assert(arg == args@[it.index()]);
        builder = array_params_insert(builder, arg)?;
    }
    Ok(builder)
}

/// A builder with `args`, in order.
fn fill_object(args: Vec<(String, serde_json::Value)>) -> (res: Result<
    jsonrpsee::core::params::ObjectParams,
    serde_json::Error,
>)
    ensures
        res matches Ok(params) && object_items(params) == keyed(args@),
{
    let mut builder = object_params_new();
    for arg in it: args
        invariant
            object_items(builder) =~= keyed(args@).take(it.index()),
            it.seq() == args@,
    {
        let (name, value) = arg;
        assert(keyed(args@)[it.index()] == (name@, value));
        builder = object_params_insert(builder, name.as_str(), value)?;
    }
    Ok(builder)
}

/// The parameters ready to be sent: those by position in order, those by name each once.
pub fn params2params(ours: RequestParameters) -> (res: Result<CallParams, serde_json::Error>)
    ensures
        match ours {
            RequestParameters::ByPosition(args) => res matches Ok(CallParams::Array(params))
                && array_items(params) == args@,
            RequestParameters::ByName(args) => res matches Ok(CallParams::Object(params))
                && distinct_keys(object_items(params)) && entries_of(object_items(params))
                == object_entries(args),
        },
{
    match ours {
        RequestParameters::ByPosition(args) => Ok(CallParams::Array(fill_array(args)?)),
        RequestParameters::ByName(args) => {
            let entries = object_into_iter(args);
            Ok(CallParams::Object(fill_object(entries)?))
        },
    }
}

} // verus!
