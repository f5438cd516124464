use vstd::prelude::*;

use crate::dispatch::{after_dispatch, deliveries, dispatch_plan, Delivery, LinkedModel};
use crate::filter::{enabled, FilterModel};
use crate::level::Level;
use crate::registry::RegistryModel;

verus! {

/// A level passes the filter exactly when the compile floor is on and the
/// level reaches both floors, that is, when it reaches the effective floor
/// that `get_min_level` reports.
pub proof fn enabled_iff_reaches_min_level(filter: FilterModel, level: Level)
    ensures
        filter.is_enabled(level) == (filter.compile_floor is Some && level.rank()
            >= filter.compile_floor->0.rank() && level.rank() >= filter.runtime_floor.rank()),
        filter.is_enabled(level) == (filter.min_level() matches Some(floor) && level.rank()
            >= floor.rank()),
{
}

/// The runtime floor only narrows: whatever passes with some runtime floor
/// also passes with the most permissive one, and nothing the compile floor
/// stops can be let through by any runtime floor.
pub proof fn runtime_floor_only_narrows(compile_floor: Option<Level>, runtime_floor: Level, level: Level)
    ensures
        enabled(compile_floor, runtime_floor, level) ==> enabled(compile_floor, Level::Trace, level),
        !enabled(compile_floor, Level::Trace, level) ==> !enabled(compile_floor, runtime_floor, level),
{
}

/// Setting the runtime floor to `level` and then reading the effective floor
/// gives the stricter of the compile floor and `level`, or `None` when the
/// compile floor is off, whatever `level` is.
pub proof fn set_then_get_min_level(filter: FilterModel, level: Level)
    ensures
        filter.with_runtime_floor(level).min_level() == (match filter.compile_floor {
            Some(c) => Some(if level.rank() >= c.rank() {
                level
            } else {
                c
            }),
            None => None,
        }),
{
}

/// Looking the sink up is idempotent: a second lookup changes nothing and
/// hands out what the first did, and a first lookup on an empty slot installs
/// the one default, which every later lookup then sees.
pub proof fn lookup_is_idempotent<S, E>(registry: RegistryModel<S, E>)
    ensures
        registry.after_lookup().after_lookup() == registry.after_lookup(),
        registry.after_lookup().resolved_sink() == registry.resolved_sink(),
        registry.sink is None ==> registry.after_lookup().sink == registry.default_sink,
        registry.sink is Some ==> registry.after_lookup() == registry,
{
}

/// After registering `a` and then `b`, the registry is as if only `b` had
/// been registered, and every later dispatch sends records to `b` and never
/// to `a` (unless they are the same), without changing the registry.
pub proof fn last_registration_wins<S, E>(
    registry: RegistryModel<S, E>,
    a: S,
    b: S,
    filter: FilterModel,
    level: Level,
)
    ensures
        registry.with_sink(a).with_sink(b) == registry.with_sink(b),
        registry.with_sink(b).resolved_sink() == Some(b),
        after_dispatch(filter, registry.with_sink(b), level) == registry.with_sink(b),
        forall|i: int|
            0 <= i < dispatch_plan(filter, registry.with_sink(b), level).len()
                ==> #[trigger] dispatch_plan(filter, registry.with_sink(b), level)[i] != Delivery::<
                S,
                E,
            >::Sink(a) || a == b,
        filter.is_enabled(level) ==> dispatch_plan(filter, registry.with_sink(b), level).last()
            == Delivery::<S, E>::Sink(b),
{
    let r = registry.with_sink(b);
    assert(r.with_sink(b) == r);
    let plan = dispatch_plan(filter, r, level);
    if filter.is_enabled(level) {
        assert(plan == deliveries(r.extension, Some(b)));
        match r.extension {
            Some(e) => assert(plan =~= seq![Delivery::Extension(e), Delivery::Sink(b)]),
            None => assert(plan =~= seq![Delivery::<S, E>::Sink(b)]),
        }
    }
    assert(registry.with_sink(a).with_sink(b) =~= r);
}

/// With no sink registered and no default, a dispatch reaches no sink and
/// leaves the registry as it was; with no extension either, it reaches
/// nothing at all.
pub proof fn no_sink_is_silent<S, E>(filter: FilterModel, registry: RegistryModel<S, E>, level: Level)
    requires
        registry.sink is None,
        registry.default_sink is None,
    ensures
        after_dispatch(filter, registry, level) == registry,
        forall|i: int|
            0 <= i < dispatch_plan(filter, registry, level).len() ==> #[trigger] dispatch_plan(
                filter,
                registry,
                level,
            )[i] is Extension,
        registry.extension is None ==> dispatch_plan(filter, registry, level) == Seq::<
            Delivery<S, E>,
        >::empty(),
{
    let plan = dispatch_plan(filter, registry, level);
    if filter.is_enabled(level) {
        match registry.extension {
            Some(e) => assert(plan =~= seq![Delivery::<S, E>::Extension(e)]),
            None => assert(plan =~= Seq::<Delivery<S, E>>::empty()),
        }
    }
}

/// With an extension and a sink in place, a record that passes the filter goes
/// to the extension exactly once and then to the sink, and to nothing else;
/// both receive the same record. The same holds of a linked dispatcher.
pub proof fn extension_before_sink<S, E>(
    filter: FilterModel,
    registry: RegistryModel<S, E>,
    linked: LinkedModel<S, E>,
    level: Level,
)
    requires
        filter.is_enabled(level),
    ensures
        registry.extension matches Some(e) ==> registry.resolved_sink() matches Some(s)
            ==> dispatch_plan(filter, registry, level) == seq![
            Delivery::<S, E>::Extension(e),
            Delivery::<S, E>::Sink(s),
        ],
        linked.extension matches Some(e) ==> deliveries(linked.extension, Some(linked.sink))
            == seq![Delivery::<S, E>::Extension(e), Delivery::<S, E>::Sink(linked.sink)],
{
    if let Some(e) = registry.extension {
        if let Some(s) = registry.resolved_sink() {
            assert(dispatch_plan(filter, registry, level) =~= seq![
                Delivery::<S, E>::Extension(e),
                Delivery::<S, E>::Sink(s),
            ]);
        }
    }
    if let Some(e) = linked.extension {
        assert(deliveries(linked.extension, Some(linked.sink)) =~= seq![
            Delivery::<S, E>::Extension(e),
            Delivery::<S, E>::Sink(linked.sink),
        ]);
    }
}

} // verus!
