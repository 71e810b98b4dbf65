use vstd::prelude::*;

verus! {

/// Trait for all providers.
///
/// The generic params are:
///
/// * C - Container type.
/// * V - Provided value type.
/// * P - Parameters type.
///
/// A provider may keep state behind `&self`, so `get` need not give the same
/// value twice. What a contract says of it is a relation, `provides`, between
/// the arguments and each value that may come back; `ready` says whether
/// `get` may be called at all.
pub trait Provider<C, V, P> {
    /// Whether the provider is set up to provide: `get` may be called only
    /// on a provider that is. An implementation that states nothing of its
    /// own is always ready.
    open spec fn ready(&self) -> bool {
        true
    }

    /// Whether `get` may return `value` for `container` and `params`. An
    /// implementation that states nothing of its own leaves every value
    /// possible.
    open spec fn provides(&self, container: &C, params: &P, value: V) -> bool {
        true
    }

    /// Get the value.
    ///
    /// Params are used for extra definition for the provider.
    fn get(&self, container: &C, params: &P) -> (value: V)
        requires
            self.ready(),
        ensures
            self.provides(container, params, value),
    ;
}

} // verus!
