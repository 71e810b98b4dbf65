use crate::factory::InstanceFactory;
use crate::held::Held;
use crate::providers::provider::Provider;
use vstd::prelude::*;

verus! {

/// Create unique value for each customer.
///
/// For generic argument, see the Provider trait.
#[verifier::reject_recursive_types(C)]
#[verifier::reject_recursive_types(V)]
#[verifier::reject_recursive_types(P)]
pub struct Factory<C, V, P> {
    /// The instance factory
    factory: Held<Box<dyn InstanceFactory<C, V, P>>>,
}

impl<C, V, P> Factory<C, V, P> {
    /// Make new instance of the Factory struct. It provides what
    /// `factory` constructs, from the same container and params.
    pub fn new(factory: Box<dyn InstanceFactory<C, V, P>>) -> (provider: Self)
        ensures
            forall|container: &C, params: &P, value: V| #[trigger]
                provider.provides(container, params, value) == factory.constructs(
                    container,
                    params,
                    value,
                ),
    {
        let held = Held::new(factory);
        Factory { factory: held }
    }

    /// Create new instance wrapped in the Box.
    pub fn boxed(factory: Box<dyn InstanceFactory<C, V, P>>) -> (provider: Box<Self>)
        ensures
            forall|container: &C, params: &P, value: V| #[trigger]
                provider.provides(container, params, value) == factory.constructs(
                    container,
                    params,
                    value,
                ),
    {
        let held = Held::new(factory);
        Box::new(Factory { factory: held })
    }
}

impl<C, V, P> Provider<C, V, P> for Factory<C, V, P> {
    /// A factory is always ready.
    open spec fn ready(&self) -> bool {
        true
    }

    /// A factory provides what its instance factory constructs from the
    /// container and params of the call.
    closed spec fn provides(&self, container: &C, params: &P, value: V) -> bool {
        self.factory.item.constructs(container, params, value)
    }

    /// Each call create unique instance of the value: the instance factory
    /// constructs it from `container` and `params`, and it is handed on as
    /// it is.
    fn get(&self, container: &C, params: &P) -> (value: V) {
        self.factory.item.new_instance(container, params)
    }
}

} // verus!
