//! What holds of the parameters of a call as a whole.

use crate::rpc::json::{distinct_keys, entries_of, keyed, lemma_entries_of_at, JsonValue};
use crate::rpc::params::{is_unparsed, named_args, UnparseError};
use crate::rpc::openrpc_types::OpenRPC;
use crate::rpc::reflect::{
    distinct_registrations, distinct_strs, generator_definitions, is_document, is_listed,
    is_registered, lemma_distinct_registrations, lemma_one_more, lemma_well_formed_step,
    registered_handlers, serves, Registration, SelfDescribingRpcModule,
};
use vstd::prelude::*;

verus! {

/// Under names of which no two are equal, each argument stands under its name, and nothing else
/// does.
pub proof fn law_named_args(names: Seq<&'static str>, args: Seq<serde_json::Value>)
    requires
        names.len() == args.len(),
        distinct_strs(names),
    ensures
        forall|i: int|
            0 <= i < names.len() ==> entries_of(named_args(names, args)).dom().contains(
                #[trigger] names[i]@,
            ) && entries_of(named_args(names, args))[names[i]@] == args[i],
        forall|name: Seq<char>| #[trigger]
            entries_of(named_args(names, args)).dom().contains(name) ==> exists|i: int|
                0 <= i < names.len() && name == #[trigger] names[i]@,
{
    let pairs = named_args(names, args);
    assert(distinct_keys(pairs)) by {
        assert forall|i: int, j: int| 0 <= i < j < pairs.len() implies (#[trigger] pairs[i]).0 != (
        #[trigger] pairs[j]).0 by {
            assert(names[i]@ != names[j]@);
        }
    }
    assert forall|i: int| 0 <= i < names.len() implies entries_of(pairs).dom().contains(
        #[trigger] names[i]@,
    ) && entries_of(pairs)[names[i]@] == args[i] by {
        lemma_entries_of_at(pairs, i);
        assert(pairs[i] == (names[i]@, args[i]));
    }
    assert forall|name: Seq<char>| #[trigger] entries_of(pairs).dom().contains(name) implies exists|
        i: int,
    | 0 <= i < names.len() && name == #[trigger] names[i]@ by {
        lemma_entries_of_keys(pairs, name);
        let i = choose|i: int| 0 <= i < pairs.len() && (#[trigger] pairs[i]).0 == name;
        assert(name == names[i]@);
    }
}

/// Every key comes from a pair.
pub proof fn lemma_entries_of_keys<V>(pairs: Seq<(Seq<char>, V)>, key: Seq<char>)
    requires
        entries_of(pairs).dom().contains(key),
    ensures
        exists|i: int| 0 <= i < pairs.len() && (#[trigger] pairs[i]).0 == key,
    decreases pairs.len(),
{
    if pairs.len() > 0 {
        if pairs.last().0 == key {
            assert(pairs[pairs.len() - 1].0 == key);
        } else {
            let front = pairs.drop_last();
            lemma_entries_of_keys(front, key);
            let i = choose|i: int| 0 <= i < front.len() && (#[trigger] front[i]).0 == key;
            assert(pairs[i].0 == key);
        }
    }
}

/// There is exactly one argument for each parameter.
pub proof fn law_unparsed_arity(
    value: Result<JsonValue, serde_json::Error>,
    arity: nat,
    args: Vec<serde_json::Value>,
)
    requires
        is_unparsed(value, arity, Ok::<Vec<serde_json::Value>, UnparseError>(args)),
    ensures
        args@.len() == arity,
{
}

/// After a module was made and methods were registered one after another, the finished module
/// serves exactly these methods, each by its handler. The document lists their definitions, once
/// each and in the order of registration, and holds the schemas that the generator has collected
/// by then.
///
/// `modules` are the module at its making and after each registration. `finished` is what
/// [`SelfDescribingRpcModule::finish`] makes of the last one.
pub proof fn law_finished_module<Ctx>(
    modules: Seq<SelfDescribingRpcModule<Ctx>>,
    registrations: Seq<Registration>,
    finished: (jsonrpsee::server::RpcModule<Ctx>, OpenRPC),
)
    requires
        modules.len() == registrations.len() + 1,
        modules[0].has_registered(Seq::empty()),
        forall|i: int|
            0 <= i < registrations.len() ==> is_registered(
                modules[i],
                #[trigger] registrations[i],
                modules[i + 1],
            ),
        finished.0 == modules.last().inner,
        is_document(modules.last(), finished.1),
    ensures
        modules.last().well_formed(),
        is_listed(registrations, modules[0].calling_convention, finished.1.methods@),
        distinct_registrations(registrations),
        serves(finished.0, registered_handlers(registrations)),
        forall|i: int|
            0 <= i < registrations.len() ==> registered_handlers(registrations).dom().contains(
                (#[trigger] registrations[i]).name@,
            ) && registered_handlers(registrations)[registrations[i].name@]
                == registrations[i].handler,
        forall|name: Seq<char>| #[trigger]
            registered_handlers(registrations).dom().contains(name) ==> exists|i: int|
                0 <= i < registrations.len() && name == (#[trigger] registrations[i]).name@,
        distinct_keys(keyed(finished.1.components.schemas@)),
        entries_of(keyed(finished.1.components.schemas@)) == generator_definitions(
            modules.last().schema_generator,
        ),
{
    lemma_registered_so_far(modules, registrations, registrations.len() as int);
    assert(registrations.take(registrations.len() as int) =~= registrations);
    lemma_distinct_registrations(
        registrations,
        modules[0].calling_convention,
        finished.1.methods@,
    );
    let pairs = Seq::new(
        registrations.len(),
        |i: int| (registrations[i].name@, registrations[i].handler),
    );
    assert forall|i: int| 0 <= i < registrations.len() implies entries_of(pairs).dom().contains(
        (#[trigger] registrations[i]).name@,
    ) && entries_of(pairs)[registrations[i].name@] == registrations[i].handler by {
        lemma_entries_of_at(pairs, i);
        assert(pairs[i] == (registrations[i].name@, registrations[i].handler));
    }
    assert forall|name: Seq<char>| #[trigger] entries_of(pairs).dom().contains(name) implies exists|
        i: int,
    | 0 <= i < registrations.len() && name == (#[trigger] registrations[i]).name@ by {
        lemma_entries_of_keys(pairs, name);
        let i = choose|i: int| 0 <= i < pairs.len() && (#[trigger] pairs[i]).0 == name;
        assert(name == registrations[i].name@);
    }
}

/// After each registration the methods so far are listed in order.
proof fn lemma_registered_so_far<Ctx>(
    modules: Seq<SelfDescribingRpcModule<Ctx>>,
    registrations: Seq<Registration>,
    n: int,
)
    requires
        0 <= n <= registrations.len(),
        modules.len() == registrations.len() + 1,
        modules[0].has_registered(Seq::empty()),
        forall|i: int|
            0 <= i < registrations.len() ==> is_registered(
                modules[i],
                #[trigger] registrations[i],
                modules[i + 1],
            ),
    ensures
        modules[n].has_registered(registrations.take(n)),
        modules[n].well_formed(),
        modules[n].calling_convention == modules[0].calling_convention,
    decreases n,
{
    if n == 0 {
        assert(registrations.take(0) =~= Seq::empty());
        assert(modules[0].is_served_by(registered_handlers(Seq::empty())));
    } else {
        lemma_registered_so_far(modules, registrations, n - 1);
        assert(is_registered(modules[n - 1], registrations[n - 1], modules[n]));
        lemma_one_more(
            modules[n - 1],
            registrations.take(n - 1),
            registrations[n - 1],
            modules[n],
        );
        lemma_well_formed_step(modules[n - 1], registrations[n - 1], modules[n]);
        assert(registrations.take(n) =~= registrations.take(n - 1).push(registrations[n - 1]));
    }
}

} // verus!
