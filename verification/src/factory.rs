use vstd::prelude::*;

verus! {

/// Responsible for value instance creation.
///
/// An instance factory may read its dependencies from the container and may
/// keep state of its own behind `&self` (a running counter, say), so two
/// constructions from the same arguments need not give the same value. What
/// a contract can say of it is therefore a relation, `constructs`, between
/// the arguments and each value that may come out.
pub trait InstanceFactory<C, V, P> {
    /// Whether one construction from `container` and `params` may yield
    /// `value`. An implementation that states nothing of its own leaves
    /// every value possible.
    open spec fn constructs(&self, container: &C, params: &P, value: V) -> bool {
        true
    }

    /// Create a new instance of the value.
    fn new_instance(&self, container: &C, params: &P) -> (value: V)
        ensures
            self.constructs(container, params, value),
    ;
}

} // verus!
