use vstd::prelude::*;

verus! {

/// Responsible for value instance creation.
///
/// The contract is that of an instance factory under the name that
/// containers built around plain values use: `constructs` relates the
/// arguments to each value that one construction may yield.
pub trait ValueFactory<C, V, P> {
    /// Whether one construction from `container` and `params` may yield
    /// `value`. An implementation that states nothing of its own leaves
    /// every value possible.
    open spec fn constructs(&self, container: &C, params: &P, value: V) -> bool {
        true
    }

    /// Create a new instance of the value.
    fn new_instance(&self, container: &C, params: &P) -> (value: V)
        ensures
            self.constructs(container, params, value),
    ;
}

} // verus!
