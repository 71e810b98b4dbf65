use crate::shared::share_arc;
use crate::types::InstanceManager;
use std::sync::Arc;
use vstd::prelude::*;

verus! {

/// Always deliver same instance wrapped in the `Arc`.
///
/// The instance is passed directly to the `new` method.
/// The instance is not created "on demand" and this is the difference
/// against the Singleton.
///
/// # Typical use cases
///
/// * constants
/// * configuration values
///
/// # Restrictions
///
/// Only unit value is passed as argument because any argument is pointless
/// for this instance manager.
pub struct Instance<T> {
    /// Stored instance of T wrapped in the Arc
    instance: Arc<T>,
}

impl<T> Instance<T> {
    /// The instance that the manager was made with.
    pub closed spec fn stored(&self) -> T {
        *self.instance
    }

    /// Create new instance of the `Instance` with given value.
    pub fn new(instance: T) -> (manager: Self)
        ensures
            manager.stored() == instance,
    {
        Self { instance: Arc::new(instance) }
    }
}

impl<T> InstanceManager<Arc<T>> for Instance<T> {
    open spec fn serves(&self, args: &()) -> bool {
        true
    }

    /// Every handle that comes back points to the stored instance.
    open spec fn yields(&self, args: &(), instance: Arc<T>) -> bool {
        *instance == self.stored()
    }

    fn get_instance(&self, _args: &()) -> (instance: Arc<T>) {
        share_arc(&self.instance)
    }
}

} // verus!
