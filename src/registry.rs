use vstd::prelude::*;

verus! {

/// What a registry holds: the active sink, the sink installed on first use
/// when none was registered, and the active extension.
pub struct RegistryModel<S, E> {
    pub sink: Option<S>,
    pub default_sink: Option<S>,
    pub extension: Option<E>,
}

impl<S, E> RegistryModel<S, E> {
    /// The sink a lookup hands out: the registered one, else the default.
    pub open spec fn resolved_sink(self) -> Option<S> {
        match self.sink {
            Some(s) => Some(s),
            None => self.default_sink,
        }
    }

    /// The registry after a lookup: an empty slot takes the default.
    pub open spec fn after_lookup(self) -> RegistryModel<S, E> {
        RegistryModel { sink: self.resolved_sink(), ..self }
    }

    pub open spec fn with_sink(self, sink: S) -> RegistryModel<S, E> {
        RegistryModel { sink: Some(sink), ..self }
    }

    pub open spec fn with_extension(self, extension: E) -> RegistryModel<S, E> {
        RegistryModel { extension: Some(extension), ..self }
    }
}

/// The sink registry: one sink slot, filled with the default on first use
/// when nothing was registered, and one extension slot, which has no default.
/// `S` and `E` are the handles by which sinks and extensions are called.
#[derive(Clone, Copy)]
pub struct Registry<S, E> {
    sink: Option<S>,
    default_sink: Option<S>,
    extension: Option<E>,
}

impl<S, E> View for Registry<S, E> {
    type V = RegistryModel<S, E>;

    closed spec fn view(&self) -> RegistryModel<S, E> {
        RegistryModel {
            sink: self.sink,
            default_sink: self.default_sink,
            extension: self.extension,
        }
    }
}

impl<S: Copy, E: Copy> Registry<S, E> {
    /// An empty registry. `default_sink` is what the first lookup installs
    /// when no sink was registered; with `None`, an empty slot stays empty.
    pub fn new(default_sink: Option<S>) -> (r: Self)
        ensures
            r@ == (RegistryModel::<S, E> { sink: None, default_sink, extension: None }),
    {
        Registry { sink: None, default_sink, extension: None }
    }
}

/// Registers the sink. The last registration wins.
pub fn set_logger<S: Copy, E: Copy>(registry: &mut Registry<S, E>, logger_fn: S)
    ensures
        final(registry)@ == old(registry)@.with_sink(logger_fn),
{
    registry.sink = Some(logger_fn);
}

/// Registers the extension, called before the sink for every record that
/// passes the filter. The last registration wins.
pub fn set_extension<S: Copy, E: Copy>(registry: &mut Registry<S, E>, extension_fn: E)
    ensures
        final(registry)@ == old(registry)@.with_extension(extension_fn),
{
    registry.extension = Some(extension_fn);
}

/// Looks the sink up. An empty slot is filled with the default sink, if
/// there is one, and the slot's content is returned; `None` only when the
/// slot is empty and there is no default.
pub fn get_logger<S: Copy, E: Copy>(registry: &mut Registry<S, E>) -> (r: Option<S>)
    ensures
        r == old(registry)@.resolved_sink(),
        final(registry)@ == old(registry)@.after_lookup(),
{
    if registry.sink.is_none() {
        // Installing the default is idempotent: whoever fills the slot first
        // installs the same value any later attempt would.
        registry.sink = registry.default_sink;
    }
    registry.sink
}

/// The extension, if one was registered.
pub fn get_extension<S: Copy, E: Copy>(registry: &Registry<S, E>) -> (r: Option<E>)
    ensures
        r == registry@.extension,
{
    registry.extension
}

} // verus!
