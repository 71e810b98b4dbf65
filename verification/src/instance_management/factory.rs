use crate::types::InstanceManager;
use vstd::prelude::*;

verus! {

/// What the manager keeps of its instance factory: something to call with
/// the arguments.
trait Create<T, Args> {
    spec fn accepts(&self, args: &Args) -> bool;

    spec fn creates(&self, args: &Args, instance: T) -> bool;

    fn create(&self, args: &Args) -> (instance: T)
        requires
            self.accepts(args),
        ensures
            self.creates(args, instance),
    ;
}

impl<T, Args, F: Fn(&Args) -> T> Create<T, Args> for F {
    spec fn accepts(&self, args: &Args) -> bool {
        call_requires(*self, (args,))
    }

    spec fn creates(&self, args: &Args, instance: T) -> bool {
        call_ensures(*self, (args,), instance)
    }

    fn create(&self, args: &Args) -> (instance: T) {
        self(args)
    }
}

/// Always create new instance using provided instance factory.
#[verifier::reject_recursive_types(T)]
#[verifier::reject_recursive_types(Args)]
pub struct Factory<T, Args> {
    /// The instance factory
    instance_factory: Box<dyn Create<T, Args>>,
}

impl<T, Args> Factory<T, Args> {
    /// Create new `Factory` instance and initialize it with the instance
    /// factory. The manager serves the arguments that `instance_factory`
    /// can be called with, and yields what it returns.
    pub fn new<F: Fn(&Args) -> T + 'static>(instance_factory: Box<F>) -> (manager: Self)
        ensures
            forall|args: &Args| #[trigger]
                manager.serves(args) == call_requires(*instance_factory, (args,)),
            forall|args: &Args, instance: T| #[trigger]
                manager.yields(args, instance) == call_ensures(
                    *instance_factory,
                    (args,),
                    instance,
                ),
    {
        Factory { instance_factory }
    }
}

impl<T, Args> InstanceManager<T, Args> for Factory<T, Args> {
    closed spec fn serves(&self, args: &Args) -> bool {
        self.instance_factory.accepts(args)
    }

    closed spec fn yields(&self, args: &Args, instance: T) -> bool {
        self.instance_factory.creates(args, instance)
    }

    /// Call the instance factory with `args` and hand its result on as it
    /// is.
    fn get_instance(&self, args: &Args) -> (instance: T) {
        self.instance_factory.create(args)
    }
}

} // verus!
