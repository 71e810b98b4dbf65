use crate::providers::provider::Provider;
use crate::types::InstanceManager;
use std::sync::Arc;
use vstd::prelude::*;

verus! {

/// Always returns clone of initial instance.
///
/// Similar to the `Instance` instance manager but does not return a handle
/// to the instance it holds but a clone of it, made by the instance's own
/// `clone`. What is handed out is owned by the caller: nothing done to it
/// reaches the held instance or another clone.
pub struct Prototype<T> where T: Clone {
    /// Stored instance
    instance: Arc<T>,
}

impl<T> Prototype<T> where T: Clone {
    /// The instance that every clone is made from.
    pub closed spec fn template(&self) -> T {
        *self.instance
    }

    /// Create new instance of the `Prototype` instance manager.
    pub fn new(instance: T) -> (manager: Prototype<T>)
        ensures
            manager.template() == instance,
    {
        Prototype { instance: Arc::new(instance) }
    }
}

impl<T> InstanceManager<T, ()> for Prototype<T> where T: Clone {
    open spec fn serves(&self, args: &()) -> bool {
        true
    }

    /// What comes back is a clone of the template.
    open spec fn yields(&self, args: &(), instance: T) -> bool {
        cloned(self.template(), instance)
    }

    fn get_instance(&self, _args: &()) -> (instance: T) {
        (*self.instance).clone()
    }
}

impl<C, T, P> Provider<C, T, P> for Prototype<T> where T: Clone {
    /// A prototype is always ready.
    open spec fn ready(&self) -> bool {
        true
    }

    /// A prototype provides clones of its template, whatever the container
    /// and params.
    open spec fn provides(&self, container: &C, params: &P, value: T) -> bool {
        cloned(self.template(), value)
    }

    /// Clone the template. The container and params are not looked at.
    fn get(&self, _container: &C, _params: &P) -> (value: T) {
        (*self.instance).clone()
    }
}

} // verus!
