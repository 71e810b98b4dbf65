use vstd::prelude::*;

verus! {

/// Common interface for instance managers.
///
/// `serves` says for which arguments `get_instance` may be called, and
/// `yields` relates the arguments to each instance that may come back.
pub trait InstanceManager<T, Args = ()> {
    /// Whether `get_instance` may be called with `args`. An implementation
    /// that states nothing of its own serves all arguments.
    open spec fn serves(&self, args: &Args) -> bool {
        true
    }

    /// Whether `get_instance` may return `instance` for `args`. An
    /// implementation that states nothing of its own leaves every instance
    /// possible.
    open spec fn yields(&self, args: &Args, instance: T) -> bool {
        true
    }

    /// Get an instance from the instance manager.
    fn get_instance(&self, args: &Args) -> (instance: T)
        requires
            self.serves(args),
        ensures
            self.yields(args, instance),
    ;
}

} // verus!
