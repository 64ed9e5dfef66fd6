//! Methods that describe themselves: arity, names of the arguments and schemas stand at one place.

use crate::rpc::json::{distinct_keys, entries_of, keyed, JsonValue};
use crate::rpc::openrpc_types;
use crate::rpc::openrpc_types::{
    distinct_methods, distinct_names, required_first, Components, ContentDescriptor, Method,
    Methods, OpenRPC, ParamListError, ParamStructure,
};
use crate::rpc::params::{
    arrange, is_arranged, is_unparsed, unparse_value, zip_eq, ConcreteCallingConvention,
    RequestParameters, UnparseError,
};
use std::sync::Arc;
use std::time::Duration;
use vstd::prelude::*;

verus! {

/// The group of methods that a method is in. It is part of the path of a request.
#[derive(Debug, Clone, Copy, Hash, PartialEq, Eq, PartialOrd, Ord, Structural)]
pub enum ApiVersion {
    V0,
    V1,
}

/// A type with a JSON form.
pub trait HasLotusJson: Sized {
    /// The JSON form of the value, where it serializes.
    fn into_lotus_json_value(self) -> Result<JsonValue, serde_json::Error>;
}

/// A tuple of `ARITY` arguments.
pub trait Params<const ARITY: usize>: HasLotusJson {
    /// The JSON forms of the arguments, one for each.
    fn unparse(self) -> (res: Result<Vec<serde_json::Value>, UnparseError>)
        ensures
            exists|value: Result<JsonValue, serde_json::Error>|
                call_ensures(Self::into_lotus_json_value, (self,), value) && #[trigger] is_unparsed(
                    value,
                    ARITY as nat,
                    res,
                ),
    {
        let value = self.into_lotus_json_value();
        unparse_value(value, ARITY)
    }
}

/// A method. Its handler is not part of this description.
pub trait RpcMethod<const ARITY: usize> {
    /// The name of the method.
    const NAME: &'static str;

    /// The names of the arguments. No two are equal.
    const PARAM_NAMES: [&'static str; ARITY];

    /// The group that the method is in.
    const API_VERSION: ApiVersion;

    /// The arguments. Optional ones come last.
    type Params: Params<ARITY>;

    /// What the method returns.
    type Ok: HasLotusJson;
}

/// Whether `res` is what the arguments `args` give for parameters of these names.
pub open spec fn is_built(
    names: Seq<&'static str>,
    args: Result<Vec<serde_json::Value>, UnparseError>,
    calling_convention: ConcreteCallingConvention,
    res: Result<RequestParameters, UnparseError>,
) -> bool {
    match args {
        Ok(args) => res matches Ok(params) && is_arranged(names, args, calling_convention, params),
        Err(error) => res == Err::<RequestParameters, UnparseError>(error),
    }
}

/// A request for a call.
#[derive(Debug)]
pub struct RpcRequest {
    pub method_name: &'static str,
    /// An array or an object.
    pub params: JsonValue,
    pub api_version: ApiVersion,
    pub timeout: Duration,
}

/// The JSON form of `params`.
pub open spec fn params_value(params: RequestParameters) -> JsonValue {
    match params {
        RequestParameters::ByPosition(it) => JsonValue::Array(it),
        RequestParameters::ByName(it) => JsonValue::Object(it),
    }
}

impl RpcRequest {
    /// The request with the parameters `params`.
    pub fn new(
        method_name: &'static str,
        params: RequestParameters,
        api_version: ApiVersion,
        timeout: Duration,
    ) -> (r: RpcRequest)
        ensures
            r == (RpcRequest { method_name, params: params_value(params), api_version, timeout }),
    {
        let params = match params {
            RequestParameters::ByPosition(it) => JsonValue::Array(it),
            RequestParameters::ByName(it) => JsonValue::Object(it),
        };
        RpcRequest { method_name, params, api_version, timeout }
    }
}

/// Whether no two of `names` are equal.
pub open spec fn distinct_strs(names: Seq<&'static str>) -> bool {
    forall|i: int, j: int|
        0 <= i < j < names.len() ==> (#[trigger] names[i])@ != (#[trigger] names[j])@
}

/// Whether no argument that must be there follows one that is optional. Each schema comes with
/// whether its argument is optional.
pub open spec fn optional_last(schemas: Seq<(schemars::schema::Schema, bool)>) -> bool {
    forall|i: int, j: int|
        0 <= i < j < schemas.len() && !(#[trigger] schemas[j]).1 ==> !(#[trigger] schemas[i]).1
}

/// Whether `params` describe arguments of these names and schemas.
pub open spec fn is_described(
    names: Seq<&'static str>,
    schemas: Seq<(schemars::schema::Schema, bool)>,
    params: Seq<ContentDescriptor>,
) -> bool {
    &&& params.len() == names.len()
    &&& forall|i: int|
        0 <= i < params.len() ==> (#[trigger] params[i]).name@ == names[i]@ && params[i].schema
            == schemas[i].0 && params[i].required == !schemas[i].1
}

/// Whether `method` describes the method `name` with these arguments and this result.
pub open spec fn is_definition(
    name: &'static str,
    names: Seq<&'static str>,
    schemas: Seq<(schemars::schema::Schema, bool)>,
    result: (schemars::schema::Schema, bool),
    calling_convention: ParamStructure,
    method: Method,
) -> bool {
    &&& method.name@ == name@
    &&& is_described(names, schemas, method.params@)
    &&& method.param_structure == calling_convention
    &&& method.result matches Some(descriptor) && descriptor.name@ == name@ + "::Result"@
        && descriptor.schema == result.0 && descriptor.required == !result.1
}

/// What a method is registered with: its name, its handler, the names and schemas of its
/// arguments, and the schema of its result.
pub struct Registration {
    pub name: &'static str,
    pub handler: jsonrpsee::MethodCallback,
    pub names: Seq<&'static str>,
    pub schemas: Seq<(schemars::schema::Schema, bool)>,
    pub result: (schemars::schema::Schema, bool),
}

/// Whether `methods` are the definitions of the registered methods, one for each and in order.
pub open spec fn is_listed(
    registrations: Seq<Registration>,
    calling_convention: ParamStructure,
    methods: Seq<Method>,
) -> bool {
    &&& methods.len() == registrations.len()
    &&& forall|i: int|
        0 <= i < methods.len() ==> is_definition(
            registrations[i].name,
            registrations[i].names,
            registrations[i].schemas,
            registrations[i].result,
            calling_convention,
            #[trigger] methods[i],
        )
}

/// The handlers of the registered methods, by name.
pub open spec fn registered_handlers(registrations: Seq<Registration>) -> Map<
    Seq<char>,
    jsonrpsee::MethodCallback,
> {
    entries_of(
        Seq::new(
            registrations.len(),
            |i: int| (registrations[i].name@, registrations[i].handler),
        ),
    )
}

/// Whether no two methods are registered under one name.
pub open spec fn distinct_registrations(registrations: Seq<Registration>) -> bool {
    forall|i: int, j: int|
        0 <= i < j < registrations.len() ==> (#[trigger] registrations[i]).name@ != (
        #[trigger] registrations[j]).name@
}

/// Calls `From<[T; N]>` of `Vec`: the items of the array, in order.
#[verifier::external_body]
fn vec_from_array<T, const N: usize>(items: [T; N]) -> (r: Vec<T>)
    ensures
        r@ == items@,
{
    Vec::from(items)
}

/// The descriptors of arguments with these names and schemas.
fn describe(
    names: Vec<&'static str>,
    schemas: Vec<(schemars::schema::Schema, bool)>,
) -> (r: Vec<ContentDescriptor>)
    requires
        names@.len() == schemas@.len(),
    ensures
        is_described(names@, schemas@, r@),
{
    let mut params: Vec<ContentDescriptor> = Vec::new();
    let pairs = zip_eq(names, schemas);
    for pair in it: pairs
        invariant
            it.seq() == pairs@,
            pairs@.len() == names@.len() == schemas@.len(),
            forall|i: int| 0 <= i < pairs@.len() ==> #[trigger] pairs@[i] == (names@[i], schemas@[i]),
            is_described(
                names@.take(it.index()),
                schemas@.take(it.index()),
                params@,
            ),
    {
        let (name, (schema, optional)) = pair;
        assert(pairs@[it.index()] == (name, (schema, optional)));
        params.push(ContentDescriptor { name: name.to_owned(), schema, required: !optional });
    }
    params
}

/// What every method can do.
pub trait RpcMethodExt<const ARITY: usize>: RpcMethod<ARITY> {
    /// The parameters of a request with the arguments `params`.
    fn build_params(
        params: Self::Params,
        calling_convention: ConcreteCallingConvention,
    ) -> (res: Result<RequestParameters, UnparseError>)
        ensures
            exists|
                value: Result<JsonValue, serde_json::Error>,
                args: Result<Vec<serde_json::Value>, UnparseError>,
            |
                call_ensures(
                    <Self::Params as HasLotusJson>::into_lotus_json_value,
                    (params,),
                    value,
                ) && #[trigger] is_unparsed(value, ARITY as nat, args) && is_built(
                    Self::PARAM_NAMES@,
                    args,
                    calling_convention,
                    res,
                ),
    {
        match params.unparse() {
            Ok(args) => Ok(arrange(Self::PARAM_NAMES.as_slice(), args, calling_convention)),
            Err(error) => Err(error),
        }
    }

    /// A request for a call with the arguments `params`, which are given by position.
    fn request(params: Self::Params, timeout: Duration) -> (res: Result<RpcRequest, UnparseError>)
        ensures
            exists|
                value: Result<JsonValue, serde_json::Error>,
                args: Result<Vec<serde_json::Value>, UnparseError>,
            |
                call_ensures(
                    <Self::Params as HasLotusJson>::into_lotus_json_value,
                    (params,),
                    value,
                ) && #[trigger] is_unparsed(value, ARITY as nat, args) && match args {
                    Ok(args) => res == Ok::<RpcRequest, UnparseError>(
                        RpcRequest {
                            method_name: Self::NAME,
                            params: JsonValue::Array(args),
                            api_version: Self::API_VERSION,
                            timeout,
                        },
                    ),
                    Err(error) => res == Err::<RpcRequest, UnparseError>(error),
                },
    {
        match Self::build_params(params, ConcreteCallingConvention::ByPosition) {
            Ok(params) => Ok(RpcRequest::new(Self::NAME, params, Self::API_VERSION, timeout)),
            Err(error) => Err(error),
        }
    }

    /// The definition of this method, whose arguments have the schemas `schemas` and whose result
    /// has the schema `result`, each with whether it is optional.
    fn openrpc(
        schemas: [(schemars::schema::Schema, bool); ARITY],
        result: (schemars::schema::Schema, bool),
        calling_convention: ParamStructure,
    ) -> (res: Result<Method, ParamListError>)
        ensures
            match res {
                Ok(method) => distinct_strs(Self::PARAM_NAMES@) && optional_last(schemas@)
                    && is_definition(
                    Self::NAME,
                    Self::PARAM_NAMES@,
                    schemas@,
                    result,
                    calling_convention,
                    method,
                ),
                Err(ParamListError::DuplicateName) => !distinct_strs(Self::PARAM_NAMES@),
                Err(ParamListError::RequiredAfterOptional) => distinct_strs(Self::PARAM_NAMES@)
                    && !optional_last(schemas@),
            },
    {
        let descriptors = describe(
            vec_from_array(Self::PARAM_NAMES),
            vec_from_array(schemas),
        );
        proof {
            lemma_described(Self::PARAM_NAMES@, schemas@, descriptors@);
        }
        let params = match openrpc_types::Params::new(descriptors) {
            Ok(params) => params,
            Err(error) => {
                return Err(error);
            },
        };
        let (schema, optional) = result;
        let mut result_name = Self::NAME.to_owned();
        result_name.append("::Result");
        Ok(
            Method {
                name: Self::NAME.to_owned(),
                params,
                param_structure: calling_convention,
                result: Some(
                    ContentDescriptor { name: result_name, schema, required: !optional },
                ),
            },
        )
    }

    /// Adds this method to a module: its handler, and its definition.
    fn register<Ctx>(
        module: &mut SelfDescribingRpcModule<Ctx>,
        handler: jsonrpsee::MethodCallback,
        schemas: [(schemars::schema::Schema, bool); ARITY],
        result: (schemars::schema::Schema, bool),
    )
        requires
            old(module).well_formed(),
            !old(module).has_method(Self::NAME@),
            distinct_strs(Self::PARAM_NAMES@),
            optional_last(schemas@),
        ensures
            final(module).well_formed(),
            final(module).schema_generator == old(module).schema_generator,
            is_registered(
                *old(module),
                (Registration {
                    name: Self::NAME,
                    handler,
                    names: Self::PARAM_NAMES@,
                    schemas: schemas@,
                    result,
                }),
                *final(module),
            ),
            forall|registrations: Seq<Registration>| #[trigger]
                old(module).has_registered(registrations) ==> final(module).has_registered(
                    registrations.push(
                        (Registration {
                            name: Self::NAME,
                            handler,
                            names: Self::PARAM_NAMES@,
                            schemas: schemas@,
                            result,
                        }),
                    ),
                ),
    {
        module_verify_and_insert(&mut module.inner, Self::NAME, handler).unwrap();
        let method = Self::openrpc(schemas, result, module.calling_convention).unwrap();
        module.methods.push(method);
        proof {
            assert(module.methods@.drop_last() =~= old(module).methods@);
            let registration = Registration {
                name: Self::NAME,
                handler,
                names: Self::PARAM_NAMES@,
                schemas: schemas@,
                result,
            };
            lemma_well_formed_step(*old(module), registration, *module);
            assert forall|registrations: Seq<Registration>| #[trigger]
                old(module).has_registered(registrations) implies module.has_registered(
                registrations.push(registration),
            ) by {
                lemma_one_more(*old(module), registrations, registration, *module);
            }
        }
    }
}

impl<const ARITY: usize, T> RpcMethodExt<ARITY> for T where T: RpcMethod<ARITY> {

}

/// A descriptor list is in order where the names and schemas are.
proof fn lemma_described(
    names: Seq<&'static str>,
    schemas: Seq<(schemars::schema::Schema, bool)>,
    params: Seq<ContentDescriptor>,
)
    requires
        is_described(names, schemas, params),
        names.len() == schemas.len(),
    ensures
        distinct_names(params) == distinct_strs(names),
        required_first(params) == optional_last(schemas),
{
    if distinct_names(params) {
        assert forall|i: int, j: int| 0 <= i < j < names.len() implies (#[trigger] names[i])@ != (
        #[trigger] names[j])@ by {
            assert(params[i].name@ != params[j].name@);
        }
    }
    if required_first(params) {
        assert forall|i: int, j: int|
            0 <= i < j < schemas.len() && !(#[trigger] schemas[j]).1 implies !(
        #[trigger] schemas[i]).1 by {
            assert(params[j].required ==> params[i].required);
        }
    }
}

/// The module that [`jsonrpsee::server::RpcModule`] is.
#[verifier::external_type_specification]
#[verifier::external_body]
#[verifier::reject_recursive_types(Context)]
pub struct ExRpcModule<Context>(jsonrpsee::server::RpcModule<Context>);

/// The generator that [`schemars::gen::SchemaGenerator`] is.
#[verifier::external_type_specification]
#[verifier::external_body]
pub struct ExSchemaGenerator(schemars::gen::SchemaGenerator);

/// The schemas that a generator has collected, by name.
pub uninterp spec fn generator_definitions(
    generator: schemars::gen::SchemaGenerator,
) -> Map<Seq<char>, schemars::schema::Schema>;

/// Where the schemas that a generator makes look for the collected ones.
pub uninterp spec fn generator_definitions_path(
    generator: schemars::gen::SchemaGenerator,
) -> Seq<char>;

/// No schema at all.
pub open spec fn no_definitions() -> Map<Seq<char>, schemars::schema::Schema> {
    Map::empty()
}

/// The handler that [`jsonrpsee::MethodCallback`] is.
#[verifier::external_type_specification]
#[verifier::external_body]
pub struct ExMethodCallback(jsonrpsee::MethodCallback);

/// The error that [`jsonrpsee::core::RegisterMethodError`] is.
#[verifier::external_type_specification]
#[verifier::external_body]
pub struct ExRegisterMethodError(jsonrpsee::core::RegisterMethodError);

/// Calls `jsonrpsee::Methods::method` on a module: the handler of the method `name`, where the
/// module has one. What that is for a given module, [`serves`] says.
#[verifier::external_body]
fn module_method<'a, Ctx>(
    module: &'a jsonrpsee::server::RpcModule<Ctx>,
    name: &str,
) -> (r: Option<&'a jsonrpsee::MethodCallback>) {
    module.method(name)
}

/// Whether `module` serves exactly the methods that `handlers` has, each by its handler there.
pub closed spec fn serves<Ctx>(
    module: jsonrpsee::server::RpcModule<Ctx>,
    handlers: Map<Seq<char>, jsonrpsee::MethodCallback>,
) -> bool {
    forall|name: &str, r: Option<&jsonrpsee::MethodCallback>| #[trigger]
        call_ensures(module_method::<Ctx>, (&module, name), r) ==> (if handlers.dom().contains(
            name@,
        ) {
            r == Some(&handlers[name@])
        } else {
            r is None
        })
}

/// No handler at all.
pub open spec fn no_handlers() -> Map<Seq<char>, jsonrpsee::MethodCallback> {
    Map::empty()
}

/// Whether the method `name` is entered in `before`, with `after` as the outcome: it is where the
/// name is free, and otherwise nothing changes.
pub open spec fn is_entered<Ctx>(
    before: jsonrpsee::server::RpcModule<Ctx>,
    name: Seq<char>,
    handler: jsonrpsee::MethodCallback,
    entered: bool,
    after: jsonrpsee::server::RpcModule<Ctx>,
) -> bool {
    forall|handlers: Map<Seq<char>, jsonrpsee::MethodCallback>| #[trigger]
        serves(before, handlers) ==> entered == !handlers.dom().contains(name) && serves(
            after,
            if entered {
                handlers.insert(name, handler)
            } else {
                handlers
            },
        )
}

/// Calls `jsonrpsee::server::RpcModule::from_arc`: a module with the context `ctx` and without
/// methods. That it has the context is not stated: a module does not hand its context out.
#[verifier::external_body]
fn rpc_module_from_arc<Ctx>(ctx: Arc<Ctx>) -> (r: jsonrpsee::server::RpcModule<Ctx>)
    ensures
        serves(r, no_handlers()),
{
    jsonrpsee::server::RpcModule::from_arc(ctx)
}

/// Calls `jsonrpsee::Methods::verify_and_insert` on a module: enters the method `name` with its
/// handler, or fails and changes nothing where the module has a method of that name.
#[verifier::external_body]
fn module_verify_and_insert<Ctx>(
    module: &mut jsonrpsee::server::RpcModule<Ctx>,
    name: &'static str,
    handler: jsonrpsee::MethodCallback,
) -> (r: Result<(), jsonrpsee::core::RegisterMethodError>)
    ensures
        is_entered(*old(module), name@, handler, r is Ok, *final(module)),
{
    match module.verify_and_insert(name, handler) {
        Ok(_) => Ok(()),
        Err(error) => Err(error),
    }
}

/// Calls `schemars::gen::SchemaGenerator::new` with the settings for OpenAPI 3: a generator that
/// has collected nothing, and whose schemas look for collected ones among the components of a
/// document.
#[verifier::external_body]
fn openapi3_generator() -> (r: schemars::gen::SchemaGenerator)
    ensures
        generator_definitions(r) == no_definitions(),
        generator_definitions_path(r) == "#/components/schemas/"@,
{
    schemars::gen::SchemaGenerator::new(schemars::gen::SchemaSettings::openapi3())
}

/// Calls `schemars::gen::SchemaGenerator::take_definitions`: the collected schemas, each once,
/// which the generator then no longer holds. Their order is left open.
#[verifier::external_body]
fn take_definitions(generator: &mut schemars::gen::SchemaGenerator) -> (r: Vec<
    (String, schemars::schema::Schema),
>)
    ensures
        distinct_keys(keyed(r@)),
        entries_of(keyed(r@)) == generator_definitions(*old(generator)),
        generator_definitions(*final(generator)) == no_definitions(),
        generator_definitions_path(*final(generator)) == generator_definitions_path(
            *old(generator),
        ),
{
    generator.take_definitions().into_iter().collect()
}

/// A module whose methods are described.
#[verifier::reject_recursive_types(Ctx)]
pub struct SelfDescribingRpcModule<Ctx> {
    pub inner: jsonrpsee::server::RpcModule<Ctx>,
    pub schema_generator: schemars::gen::SchemaGenerator,
    pub calling_convention: ParamStructure,
    pub methods: Vec<Method>,
}

/// Whether `inner` is what [`jsonrpsee::server::RpcModule::from_arc`] makes of `ctx`.
pub closed spec fn is_made_of<Ctx>(
    ctx: Arc<Ctx>,
    inner: jsonrpsee::server::RpcModule<Ctx>,
) -> bool {
    call_ensures(rpc_module_from_arc::<Ctx>, (ctx,), inner)
}

/// Whether `generator` is what [`schemars::gen::SchemaGenerator::new`] makes of the settings for
/// OpenAPI 3.
pub closed spec fn is_openapi3(generator: schemars::gen::SchemaGenerator) -> bool {
    call_ensures(openapi3_generator, (), generator)
}

/// Whether `after` is `before` with one method more, which was registered with `registration` and
/// whose name was free. The schemas that the modules have collected do not matter.
pub open spec fn is_registered<Ctx>(
    before: SelfDescribingRpcModule<Ctx>,
    registration: Registration,
    after: SelfDescribingRpcModule<Ctx>,
) -> bool {
    &&& !before.has_method(registration.name@)
    &&& is_entered(before.inner, registration.name@, registration.handler, true, after.inner)
    &&& after.calling_convention == before.calling_convention
    &&& after.methods@.len() == before.methods@.len() + 1
    &&& after.methods@.drop_last() == before.methods@
    &&& is_definition(
        registration.name,
        registration.names,
        registration.schemas,
        registration.result,
        before.calling_convention,
        after.methods@.last(),
    )
}

/// Whether `document` describes the methods of `module`, with the schemas that its generator has
/// collected.
pub open spec fn is_document<Ctx>(
    module: SelfDescribingRpcModule<Ctx>,
    document: OpenRPC,
) -> bool {
    &&& document.methods@ == module.methods@
    &&& distinct_keys(keyed(document.components.schemas@))
    &&& entries_of(keyed(document.components.schemas@)) == generator_definitions(
        module.schema_generator,
    )
}

/// One method more is listed after the others, and served besides them.
pub proof fn lemma_one_more<Ctx>(
    before: SelfDescribingRpcModule<Ctx>,
    registrations: Seq<Registration>,
    registration: Registration,
    after: SelfDescribingRpcModule<Ctx>,
)
    requires
        before.has_registered(registrations),
        is_registered(before, registration, after),
    ensures
        after.has_registered(registrations.push(registration)),
{
    let earlier = before.methods@;
    let later = after.methods@;
    let extended = registrations.push(registration);
    assert forall|i: int| 0 <= i < later.len() implies is_definition(
        extended[i].name,
        extended[i].names,
        extended[i].schemas,
        extended[i].result,
        after.calling_convention,
        #[trigger] later[i],
    ) by {
        if i < earlier.len() {
            assert(later.drop_last()[i] == later[i]);
            assert(extended[i] == registrations[i]);
        }
    }
    let pairs = Seq::new(extended.len(), |i: int| (extended[i].name@, extended[i].handler));
    assert(pairs.drop_last() =~= Seq::new(
        registrations.len(),
        |i: int| (registrations[i].name@, registrations[i].handler),
    ));
    assert(registered_handlers(extended) == registered_handlers(registrations).insert(
        registration.name@,
        registration.handler,
    ));
    assert(serves(before.inner, registered_handlers(registrations)));
}

/// One method more leaves a module well-formed.
pub proof fn lemma_well_formed_step<Ctx>(
    before: SelfDescribingRpcModule<Ctx>,
    registration: Registration,
    after: SelfDescribingRpcModule<Ctx>,
)
    requires
        before.well_formed(),
        is_registered(before, registration, after),
    ensures
        after.well_formed(),
{
    let earlier = before.methods@;
    let later = after.methods@;
    assert forall|i: int| 0 <= i < earlier.len() implies #[trigger] later[i] == earlier[i] by {
        assert(later.drop_last()[i] == later[i]);
    }
    assert forall|i: int| 0 <= i < earlier.len() implies (#[trigger] earlier[i]).name@
        != registration.name@ by {
        assert(!before.has_method(registration.name@));
    }
    let handlers = choose|handlers: Map<Seq<char>, jsonrpsee::MethodCallback>| #[trigger]
        serves(before.inner, handlers) && before.is_served_by(handlers);
    let extended = handlers.insert(registration.name@, registration.handler);
    assert(serves(after.inner, extended));
    assert forall|name: Seq<char>| #[trigger]
        extended.dom().contains(name) == after.has_method(name) by {
        if before.has_method(name) {
            let i = choose|i: int| 0 <= i < earlier.len() && (#[trigger] earlier[i]).name@ == name;
            assert(later[i].name@ == name);
        }
        if after.has_method(name) {
            let i = choose|i: int| 0 <= i < later.len() && (#[trigger] later[i]).name@ == name;
            if i < earlier.len() {
                assert(earlier[i].name@ == name);
            }
        }
        if name == registration.name@ {
            assert(later[later.len() - 1].name@ == name);
        }
        assert(handlers.dom().contains(name) == before.has_method(name));
    }
}

/// Methods of different names were registered under different names.
pub proof fn lemma_distinct_registrations(
    registrations: Seq<Registration>,
    calling_convention: ParamStructure,
    methods: Seq<Method>,
)
    requires
        is_listed(registrations, calling_convention, methods),
        distinct_methods(methods),
    ensures
        distinct_registrations(registrations),
{
    assert forall|i: int, j: int| 0 <= i < j < registrations.len() implies (
    #[trigger] registrations[i]).name@ != (#[trigger] registrations[j]).name@ by {
        assert(methods[i].name@ != methods[j].name@);
    }
}

impl<Ctx> SelfDescribingRpcModule<Ctx> {
    /// Whether `handlers` are of exactly the methods that are described.
    pub open spec fn is_served_by(
        &self,
        handlers: Map<Seq<char>, jsonrpsee::MethodCallback>,
    ) -> bool {
        forall|name: Seq<char>| #[trigger]
            handlers.dom().contains(name) == self.has_method(name)
    }

    /// Whether no two methods have one name, and exactly the methods that are described are served.
    pub open spec fn well_formed(&self) -> bool {
        &&& distinct_methods(self.methods@)
        &&& exists|handlers: Map<Seq<char>, jsonrpsee::MethodCallback>| #[trigger]
            serves(self.inner, handlers) && self.is_served_by(handlers)
    }

    /// Whether a method has the name `name`.
    pub open spec fn has_method(&self, name: Seq<char>) -> bool {
        exists|i: int| 0 <= i < self.methods@.len() && (#[trigger] self.methods@[i]).name@ == name
    }

    /// Whether the methods registered so far, in order, are `registrations`.
    pub open spec fn has_registered(&self, registrations: Seq<Registration>) -> bool {
        &&& is_listed(registrations, self.calling_convention, self.methods@)
        &&& serves(self.inner, registered_handlers(registrations))
    }

    /// A module without methods.
    pub fn new(ctx: Arc<Ctx>, calling_convention: ParamStructure) -> (r: Self)
        ensures
            r.well_formed(),
            is_made_of(ctx, r.inner),
            r.calling_convention == calling_convention,
            r.methods@.len() == 0,
            r.has_registered(Seq::empty()),
            is_openapi3(r.schema_generator),
            generator_definitions(r.schema_generator) == no_definitions(),
            generator_definitions_path(r.schema_generator) == "#/components/schemas/"@,
    {
        let module = SelfDescribingRpcModule {
            inner: rpc_module_from_arc(ctx),
            schema_generator: openapi3_generator(),
            calling_convention,
            methods: Vec::new(),
        };
        proof {
            assert(registered_handlers(Seq::empty()) =~= no_handlers());
            assert(module.is_served_by(no_handlers()));
            assert(serves(module.inner, no_handlers()));
        }
        module
    }

    /// Whether a method has the name `name`.
    pub fn is_taken(&self, name: &str) -> (r: bool)
        requires
            self.well_formed(),
        ensures
            r == self.has_method(name@),
    {
        let handler = module_method(&self.inner, name);
        proof {
            let handlers = choose|handlers: Map<Seq<char>, jsonrpsee::MethodCallback>| #[trigger]
                serves(self.inner, handlers) && self.is_served_by(handlers);
            assert(handlers.dom().contains(name@) == self.has_method(name@));
        }
        handler.is_some()
    }

    /// The module and the document that describes it.
    pub fn finish(self) -> (r: (jsonrpsee::server::RpcModule<Ctx>, OpenRPC))
        requires
            self.well_formed(),
        ensures
            r.0 == self.inner,
            is_document(self, r.1),
            forall|registrations: Seq<Registration>| #[trigger]
                self.has_registered(registrations) ==> is_listed(
                    registrations,
                    self.calling_convention,
                    r.1.methods@,
                ) && distinct_registrations(registrations) && serves(
                    r.0,
                    registered_handlers(registrations),
                ),
    {
        let SelfDescribingRpcModule { inner, mut schema_generator, methods, calling_convention: _ } =
            self;
        proof {
            assert forall|registrations: Seq<Registration>| #[trigger]
                self.has_registered(registrations) implies distinct_registrations(
                registrations,
            ) by {
                lemma_distinct_registrations(registrations, self.calling_convention, methods@);
            }
        }
        (
            inner,
            OpenRPC {
                methods: Methods::new(methods).unwrap(),
                components: Components { schemas: take_definitions(&mut schema_generator) },
            },
        )
    }
}

} // verus!
