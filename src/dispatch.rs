use vstd::prelude::*;

use crate::filter::{Filter, FilterModel};
use crate::level::Level;
use crate::record::Payload;
use crate::registry::{get_extension, get_logger, Registry, RegistryModel};

verus! {

/// One receiver of a record: the extension sees it by reference, the sink
/// takes it.
#[derive(Debug, Clone, Copy, PartialEq, Eq)]
pub enum Delivery<S, E> {
    Extension(E),
    Sink(S),
}

/// The receivers of a record that passed the filter, in call order: the
/// extension, if any, then the sink, if any.
pub open spec fn deliveries<S, E>(extension: Option<E>, sink: Option<S>) -> Seq<Delivery<S, E>> {
    let first = match extension {
        Some(e) => seq![Delivery::Extension(e)],
        None => Seq::empty(),
    };
    let last = match sink {
        Some(s) => seq![Delivery::Sink(s)],
        None => Seq::empty(),
    };
    first + last
}

/// The receivers of a record of `level`: none when the filter stops it.
pub open spec fn dispatch_plan<S, E>(
    filter: FilterModel,
    registry: RegistryModel<S, E>,
    level: Level,
) -> Seq<Delivery<S, E>> {
    if filter.is_enabled(level) {
        deliveries(registry.extension, registry.resolved_sink())
    } else {
        Seq::empty()
    }
}

/// The registry after a record of `level` was dispatched: the sink lookup,
/// which may install the default, happens only when the filter lets it through.
pub open spec fn after_dispatch<S, E>(
    filter: FilterModel,
    registry: RegistryModel<S, E>,
    level: Level,
) -> RegistryModel<S, E> {
    if filter.is_enabled(level) {
        registry.after_lookup()
    } else {
        registry
    }
}

/// Dispatches a record through the registry: returns, in the order they are
/// to be called with `payload`, the extension and the sink that receive it.
/// A record stopped by the filter, or with nothing registered and no default,
/// goes nowhere.
pub fn log<S: Copy, E: Copy>(
    filter: &Filter,
    registry: &mut Registry<S, E>,
    payload: &Payload,
) -> (r: Vec<Delivery<S, E>>)
    ensures
        r@ == dispatch_plan(filter@, old(registry)@, payload.level),
        final(registry)@ == after_dispatch(filter@, old(registry)@, payload.level),
{
    let mut plan: Vec<Delivery<S, E>> = Vec::new();
    if !filter.is_enabled(payload.level) {
        return plan;
    }
    if let Some(extension_fn) = get_extension(registry) {
        plan.push(Delivery::Extension(extension_fn));
    }
    if let Some(logger_fn) = get_logger(registry) {
        plan.push(Delivery::Sink(logger_fn));
    }
    assert(plan@ =~= deliveries(old(registry)@.extension, old(registry)@.resolved_sink()));
    plan
}

/// What a linked dispatcher is: a sink and an optional extension, both fixed
/// when it is made.
pub struct LinkedModel<S, E> {
    pub sink: S,
    pub extension: Option<E>,
}

/// The direct-link alternative to the registry: the sink, and the extension
/// if there is one, are bound when the program is built, so there is no slot
/// to look up and nothing to install.
#[derive(Clone, Copy)]
pub struct Linked<S, E> {
    sink: S,
    extension: Option<E>,
}

impl<S, E> View for Linked<S, E> {
    type V = LinkedModel<S, E>;

    closed spec fn view(&self) -> LinkedModel<S, E> {
        LinkedModel { sink: self.sink, extension: self.extension }
    }
}

impl<S: Copy, E: Copy> Linked<S, E> {
    pub fn new(sink: S, extension: Option<E>) -> (r: Self)
        ensures
            r@ == (LinkedModel { sink, extension }),
    {
        Linked { sink, extension }
    }

    /// Dispatches a record: the same contract as the registry's `log`, with
    /// the bound sink always present.
    pub fn log(&self, filter: &Filter, payload: &Payload) -> (r: Vec<Delivery<S, E>>)
        ensures
            r@ == (if filter@.is_enabled(payload.level) {
                deliveries(self@.extension, Some(self@.sink))
            } else {
                Seq::empty()
            }),
    {
        let mut plan: Vec<Delivery<S, E>> = Vec::new();
        if !filter.is_enabled(payload.level) {
            return plan;
        }
        if let Some(extension_fn) = self.extension {
            plan.push(Delivery::Extension(extension_fn));
        }
        plan.push(Delivery::Sink(self.sink));
        assert(plan@ =~= deliveries(self@.extension, Some(self@.sink)));
        plan
    }
}

} // verus!
