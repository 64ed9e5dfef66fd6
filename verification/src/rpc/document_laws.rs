//! What a definition says of a method, and what a document says of a module.

use crate::rpc::json::{distinct_keys, entries_of, keyed};
use crate::rpc::openrpc_types::{
    distinct_methods, distinct_names, required_first, ContentDescriptor, Method, OpenRPC,
    ParamStructure,
};
use crate::rpc::reflect::{
    distinct_registrations, distinct_strs, generator_definitions, is_definition, is_described,
    is_document, is_entered, is_listed, is_registered, no_definitions, no_handlers, optional_last,
    registered_handlers, serves, Registration, SelfDescribingRpcModule,
};
use crate::rpc::request_laws::law_entries;
use vstd::prelude::*;

verus! {

/// A definition has the name of the method, and a descriptor for each argument, in order. The
/// result is named after the method. An argument or a result must be there exactly where it is not
/// optional, and each has its own schema.
pub proof fn law_definition(
    name: &'static str,
    names: Seq<&'static str>,
    schemas: Seq<(schemars::schema::Schema, bool)>,
    result: (schemars::schema::Schema, bool),
    calling_convention: ParamStructure,
    method: Method,
)
    requires
        is_definition(name, names, schemas, result, calling_convention, method),
    ensures
        method.name@ == name@,
        method.param_structure == calling_convention,
        method.params@.len() == names.len(),
        forall|i: int|
            0 <= i < names.len() ==> (#[trigger] method.params@[i]).name@ == names[i]@,
        forall|i: int|
            0 <= i < names.len() ==> (#[trigger] method.params@[i]).schema == schemas[i].0,
        forall|i: int|
            0 <= i < names.len() ==> ((#[trigger] method.params@[i]).required <==> !schemas[i].1),
        method.result is Some,
        method.result->0.name@ == name@ + "::Result"@,
        method.result->0.schema == result.0,
        method.result->0.required <==> !result.1,
{
}

/// Descriptors tell the names and schemas of arguments, in order.
pub proof fn law_described(
    names: Seq<&'static str>,
    schemas: Seq<(schemars::schema::Schema, bool)>,
    params: Seq<ContentDescriptor>,
)
    requires
        is_described(names, schemas, params),
    ensures
        params.len() == names.len(),
        forall|i: int|
            0 <= i < names.len() ==> (#[trigger] params[i]).name@ == names[i]@ && params[i].schema
                == schemas[i].0 && (params[i].required <==> !schemas[i].1),
{
}

/// Names are distinct where no text stands twice among them.
pub proof fn law_distinct_strs(names: Seq<&'static str>)
    ensures
        distinct_strs(names) <==> Seq::new(names.len(), |i: int| names[i]@).no_duplicates(),
{
    let texts = Seq::new(names.len(), |i: int| names[i]@);
    if texts.no_duplicates() {
        assert forall|i: int, j: int| 0 <= i < j < names.len() implies (#[trigger] names[i])@ != (
        #[trigger] names[j])@ by {
            assert(texts[i] != texts[j]);
        }
    }
    if distinct_strs(names) {
        assert forall|i: int, j: int|
            0 <= i < texts.len() && 0 <= j < texts.len() && i != j implies texts[i] != texts[j] by {
            if i < j {
                assert(names[i]@ != names[j]@);
            } else {
                assert(names[j]@ != names[i]@);
            }
        }
    }
}

/// Parameters have distinct names where no text stands twice among the names.
pub proof fn law_distinct_names(params: Seq<ContentDescriptor>)
    ensures
        distinct_names(params) <==> Seq::new(
            params.len(),
            |i: int| params[i].name@,
        ).no_duplicates(),
{
    let texts = Seq::new(params.len(), |i: int| params[i].name@);
    if texts.no_duplicates() {
        assert forall|i: int, j: int| 0 <= i < j < params.len() implies (
        #[trigger] params[i]).name@ != (#[trigger] params[j]).name@ by {
            assert(texts[i] != texts[j]);
        }
    }
    if distinct_names(params) {
        assert forall|i: int, j: int|
            0 <= i < texts.len() && 0 <= j < texts.len() && i != j implies texts[i] != texts[j] by {
            if i < j {
                assert(params[i].name@ != params[j].name@);
            } else {
                assert(params[j].name@ != params[i].name@);
            }
        }
    }
}

/// Methods have distinct names where no text stands twice among the names.
pub proof fn law_distinct_methods(methods: Seq<Method>)
    ensures
        distinct_methods(methods) <==> Seq::new(
            methods.len(),
            |i: int| methods[i].name@,
        ).no_duplicates(),
{
    let texts = Seq::new(methods.len(), |i: int| methods[i].name@);
    if texts.no_duplicates() {
        assert forall|i: int, j: int| 0 <= i < j < methods.len() implies (
        #[trigger] methods[i]).name@ != (#[trigger] methods[j]).name@ by {
            assert(texts[i] != texts[j]);
        }
    }
    if distinct_methods(methods) {
        assert forall|i: int, j: int|
            0 <= i < texts.len() && 0 <= j < texts.len() && i != j implies texts[i] != texts[j] by {
            if i < j {
                assert(methods[i].name@ != methods[j].name@);
            } else {
                assert(methods[j].name@ != methods[i].name@);
            }
        }
    }
}

/// Registrations have distinct names where no text stands twice among the names.
pub proof fn law_distinct_registrations(registrations: Seq<Registration>)
    ensures
        distinct_registrations(registrations) <==> Seq::new(
            registrations.len(),
            |i: int| registrations[i].name@,
        ).no_duplicates(),
{
    let texts = Seq::new(registrations.len(), |i: int| registrations[i].name@);
    if texts.no_duplicates() {
        assert forall|i: int, j: int| 0 <= i < j < registrations.len() implies (
        #[trigger] registrations[i]).name@ != (#[trigger] registrations[j]).name@ by {
            assert(texts[i] != texts[j]);
        }
    }
    if distinct_registrations(registrations) {
        assert forall|i: int, j: int|
            0 <= i < texts.len() && 0 <= j < texts.len() && i != j implies texts[i] != texts[j] by {
            if i < j {
                assert(registrations[i].name@ != registrations[j].name@);
            } else {
                assert(registrations[j].name@ != registrations[i].name@);
            }
        }
    }
}

/// How many of `flags` come before the first one that is set.
proof fn lemma_first_set(flags: Seq<bool>) -> (k: int)
    ensures
        0 <= k <= flags.len(),
        forall|i: int| 0 <= i < k ==> !(#[trigger] flags[i]),
        k < flags.len() ==> flags[k],
    decreases flags.len(),
{
    if flags.len() == 0 {
        0
    } else {
        let front = flags.drop_last();
        let k = lemma_first_set(front);
        assert forall|i: int| 0 <= i < k implies !(#[trigger] flags[i]) by {
            assert(!front[i]);
        }
        if k < front.len() {
            assert(flags[k] == front[k]);
            k
        } else if flags.last() {
            k
        } else {
            assert forall|i: int| 0 <= i < k + 1 implies !(#[trigger] flags[i]) by {
                if i < k {
                    assert(!front[i]);
                }
            }
            k + 1
        }
    }
}

/// Optional arguments come last where there is a place before which none is optional and from which
/// on all are.
pub proof fn law_optional_last(schemas: Seq<(schemars::schema::Schema, bool)>)
    ensures
        optional_last(schemas) <==> exists|k: int|
            0 <= k <= schemas.len() && #[trigger] schemas.take(k).len() == k && (forall|i: int|
                0 <= i < k ==> !(#[trigger] schemas[i]).1) && (forall|i: int|
                k <= i < schemas.len() ==> (#[trigger] schemas[i]).1),
{
    if optional_last(schemas) {
        let flags = Seq::new(schemas.len(), |i: int| schemas[i].1);
        let k = lemma_first_set(flags);
        assert forall|i: int| 0 <= i < k implies !(#[trigger] schemas[i]).1 by {
            assert(!flags[i]);
        }
        assert forall|i: int| k <= i < schemas.len() implies (#[trigger] schemas[i]).1 by {
            assert(flags[k]);
            assert(schemas[k].1);
        }
        assert(schemas.take(k).len() == k);
    }
}

/// Parameters that must be there come first where there is a place before which all must be there
/// and from which on none must.
pub proof fn law_required_first(params: Seq<ContentDescriptor>)
    ensures
        required_first(params) <==> exists|k: int|
            0 <= k <= params.len() && #[trigger] params.take(k).len() == k && (forall|i: int|
                0 <= i < k ==> (#[trigger] params[i]).required) && (forall|i: int|
                k <= i < params.len() ==> !(#[trigger] params[i]).required),
{
    if required_first(params) {
        let flags = Seq::new(params.len(), |i: int| !params[i].required);
        let k = lemma_first_set(flags);
        assert forall|i: int| 0 <= i < k implies (#[trigger] params[i]).required by {
            assert(!flags[i]);
        }
        assert forall|i: int| k <= i < params.len() implies !(#[trigger] params[i]).required by {
            assert(flags[k]);
            assert(!params[k].required);
        }
        assert(params.take(k).len() == k);
    }
}

/// A list of definitions has one for each registered method, in the same place.
pub proof fn law_listed(
    registrations: Seq<Registration>,
    calling_convention: ParamStructure,
    methods: Seq<Method>,
)
    requires
        is_listed(registrations, calling_convention, methods),
    ensures
        methods.len() == registrations.len(),
        forall|i: int|
            0 <= i < registrations.len() ==> {
                let method = #[trigger] methods[i];
                &&& method.name@ == registrations[i].name@
                &&& method.param_structure == calling_convention
                &&& method.params@.len() == registrations[i].names.len()
                &&& forall|j: int|
                    0 <= j < registrations[i].names.len() ==> (
                    #[trigger] method.params@[j]).name@ == registrations[i].names[j]@
                        && method.params@[j].schema == registrations[i].schemas[j].0 && (
                    method.params@[j].required <==> !registrations[i].schemas[j].1)
                &&& method.result is Some
                &&& method.result->0.name@ == registrations[i].name@ + "::Result"@
                &&& method.result->0.schema == registrations[i].result.0
                &&& method.result->0.required <==> !registrations[i].result.1
            },
{
}

/// Each registered method is served by its own handler, where no two have one name, and no other
/// method is.
pub proof fn law_registered_handlers(registrations: Seq<Registration>)
    requires
        distinct_registrations(registrations),
    ensures
        forall|i: int|
            0 <= i < registrations.len() ==> registered_handlers(registrations).dom().contains(
                (#[trigger] registrations[i]).name@,
            ) && registered_handlers(registrations)[registrations[i].name@]
                == registrations[i].handler,
        forall|name: Seq<char>| #[trigger]
            registered_handlers(registrations).dom().contains(name) ==> exists|i: int|
                0 <= i < registrations.len() && (#[trigger] registrations[i]).name@ == name,
{
    let pairs = Seq::new(
        registrations.len(),
        |i: int| (registrations[i].name@, registrations[i].handler),
    );
    law_entries(pairs);
    assert forall|i: int| 0 <= i < registrations.len() implies entries_of(pairs).dom().contains(
        (#[trigger] registrations[i]).name@,
    ) && entries_of(pairs)[registrations[i].name@] == registrations[i].handler by {
        assert forall|j: int| i < j < pairs.len() implies (#[trigger] pairs[j]).0 != pairs[i].0 by {
            assert(registrations[i].name@ != registrations[j].name@);
        }
        assert(pairs[i] == (registrations[i].name@, registrations[i].handler));
    }
    assert forall|name: Seq<char>| #[trigger] entries_of(pairs).dom().contains(name) implies exists|
        i: int,
    | 0 <= i < registrations.len() && (#[trigger] registrations[i]).name@ == name by {
        let i = choose|i: int| 0 <= i < pairs.len() && (#[trigger] pairs[i]).0 == name;
        assert(registrations[i].name@ == name);
    }
}

/// A registration adds one definition behind the others, which stay, and one handler besides the
/// others, which stay too. Its name was not there before.
pub proof fn law_registered<Ctx>(
    before: SelfDescribingRpcModule<Ctx>,
    registration: Registration,
    after: SelfDescribingRpcModule<Ctx>,
    handlers: Map<Seq<char>, jsonrpsee::MethodCallback>,
)
    requires
        is_registered(before, registration, after),
        serves(before.inner, handlers),
    ensures
        forall|i: int|
            0 <= i < before.methods@.len() ==> (#[trigger] before.methods@[i]).name@
                != registration.name@,
        !handlers.dom().contains(registration.name@),
        serves(after.inner, handlers.insert(registration.name@, registration.handler)),
        after.calling_convention == before.calling_convention,
        after.methods@.len() == before.methods@.len() + 1,
        forall|i: int|
            0 <= i < before.methods@.len() ==> #[trigger] after.methods@[i] == before.methods@[i],
        after.methods@.last().name@ == registration.name@,
        is_definition(
            registration.name,
            registration.names,
            registration.schemas,
            registration.result,
            before.calling_convention,
            after.methods@.last(),
        ),
{
    assert(!before.has_method(registration.name@));
    assert forall|i: int| 0 <= i < before.methods@.len() implies #[trigger] after.methods@[i]
        == before.methods@[i] by {
        assert(after.methods@.drop_last()[i] == after.methods@[i]);
    }
}

/// A method is entered exactly where its name is free. Then it is served besides the others, and
/// otherwise the same methods are served as before.
pub proof fn law_entered<Ctx>(
    before: jsonrpsee::server::RpcModule<Ctx>,
    name: Seq<char>,
    handler: jsonrpsee::MethodCallback,
    entered: bool,
    after: jsonrpsee::server::RpcModule<Ctx>,
    handlers: Map<Seq<char>, jsonrpsee::MethodCallback>,
)
    requires
        is_entered(before, name, handler, entered, after),
        serves(before, handlers),
    ensures
        entered <==> !handlers.dom().contains(name),
        entered ==> serves(after, handlers.insert(name, handler)),
        !entered ==> serves(after, handlers),
{
}

/// A module has a method of a name where that name is among the names of its definitions. It is
/// well-formed where these are distinct and exactly the methods of these names are served.
pub proof fn law_module<Ctx>(module: SelfDescribingRpcModule<Ctx>, name: Seq<char>)
    ensures
        module.has_method(name) <==> Seq::new(
            module.methods@.len(),
            |i: int| module.methods@[i].name@,
        ).contains(name),
        module.well_formed() ==> distinct_methods(module.methods@) && exists|
            handlers: Map<Seq<char>, jsonrpsee::MethodCallback>,
        | #[trigger]
            serves(module.inner, handlers) && (handlers.dom().contains(name) <==> module.has_method(
                name,
            )),
{
    let texts = Seq::new(module.methods@.len(), |i: int| module.methods@[i].name@);
    if module.has_method(name) {
        let i = choose|i: int|
            0 <= i < module.methods@.len() && (#[trigger] module.methods@[i]).name@ == name;
        assert(texts[i] == name);
    }
    if texts.contains(name) {
        let i = choose|i: int| 0 <= i < texts.len() && texts[i] == name;
        assert(module.methods@[i].name@ == name);
    }
    if module.well_formed() {
        let handlers = choose|handlers: Map<Seq<char>, jsonrpsee::MethodCallback>| #[trigger]
            serves(module.inner, handlers) && module.is_served_by(handlers);
        assert(handlers.dom().contains(name) == module.has_method(name));
        assert(serves(module.inner, handlers));
    }
}

/// What a module has registered is listed by its definitions and served by the handlers.
pub proof fn law_has_registered<Ctx>(
    module: SelfDescribingRpcModule<Ctx>,
    registrations: Seq<Registration>,
)
    requires
        module.has_registered(registrations),
    ensures
        is_listed(registrations, module.calling_convention, module.methods@),
        serves(module.inner, registered_handlers(registrations)),
{
}

/// A document has the definitions of the module, in order, and each schema that the generator has
/// collected, once.
pub proof fn law_document<Ctx>(module: SelfDescribingRpcModule<Ctx>, document: OpenRPC)
    requires
        is_document(module, document),
    ensures
        document.methods@.len() == module.methods@.len(),
        forall|i: int|
            0 <= i < module.methods@.len() ==> #[trigger] document.methods@[i] == module.methods@[i],
        distinct_keys(keyed(document.components.schemas@)),
        entries_of(keyed(document.components.schemas@)) == generator_definitions(
            module.schema_generator,
        ),
{
}

/// Nothing is collected, and nothing is served, at first.
pub proof fn law_nothing(name: Seq<char>)
    ensures
        !no_definitions().dom().contains(name),
        !no_handlers().dom().contains(name),
{
}

} // verus!
