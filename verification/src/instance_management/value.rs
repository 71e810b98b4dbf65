use crate::shared::share_arc;
use crate::types::InstanceManager;
use std::sync::Arc;
use vstd::prelude::*;

verus! {

/// Always deliver the value it was made with, wrapped in the `Arc`.
pub struct Value<T> {
    value: Arc<T>,
}

impl<T> Value<T> {
    /// The value that the manager was made with.
    pub closed spec fn stored(&self) -> T {
        *self.value
    }

    /// Create new `Value` instance manager with given value.
    pub fn new(value: T) -> (manager: Self)
        ensures
            manager.stored() == value,
    {
        Self { value: Arc::new(value) }
    }
}

impl<T> InstanceManager<Arc<T>> for Value<T> {
    open spec fn serves(&self, args: &()) -> bool {
        true
    }

    /// Every handle that comes back points to the stored value.
    open spec fn yields(&self, args: &(), instance: Arc<T>) -> bool {
        *instance == self.stored()
    }

    fn get_instance(&self, _args: &()) -> (instance: Arc<T>) {
        share_arc(&self.value)
    }
}

} // verus!
