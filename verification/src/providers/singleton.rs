use crate::factory::InstanceFactory;
use crate::held::Held;
use crate::memo::{Memo, MemoState};
use crate::providers::provider::Provider;
use crate::shared::share_rc;
use std::rc::Rc;
use vstd::cell::invcell::InvCell;
use vstd::prelude::*;

verus! {

/// Clone of single value is always returned.
/// The value is usually shared (Rc) so each customer gets same data.
///
/// The value is constructed by the first `get` and kept in a memo behind
/// `&self`. Once it is there, the container and params of later calls are
/// not looked at: every `get` clones the kept value, until `clear` empties
/// the memo. The memo keeps its handle to the value until then, also when
/// the provider itself goes away.
///
/// The memo changes behind `&self`, so the contract of a method here cannot
/// speak of what the memo held before the call or holds after it. It says
/// what holds whatever the memo held: nothing gets into the memo but what
/// the instance factory constructed. When a value is constructed and when it
/// is kept is the contract of `Memo`, on which these methods run.
///
/// For generic argument, see the Provider trait.
#[verifier::reject_recursive_types(C)]
#[verifier::reject_recursive_types(V)]
#[verifier::reject_recursive_types(P)]
pub struct Singleton<C, V, P> where V: Clone {
    /// The instance factory
    factory: Held<Box<dyn InstanceFactory<C, V, P>>>,
    /// Stored instance, or an empty memo if instance was not created yet.
    value: InvCell<Memo<Rc<V>>, spec_fn(Memo<Rc<V>>) -> bool>,
}

/// Whether `factory` may construct `value`, from some container and params.
spec fn constructible<C, V, P>(
    factory: &Held<Box<dyn InstanceFactory<C, V, P>>>,
    value: V,
) -> bool {
    exists|container: &C, params: &P| factory.item.constructs(container, params, value)
}

impl<C, V, P> Singleton<C, V, P> where V: Clone {
    /// Whether the instance factory of this provider may construct `value`
    /// from `container` and `params`.
    pub closed spec fn constructs(&self, container: &C, params: &P, value: V) -> bool {
        self.factory.item.constructs(container, params, value)
    }

    /// The memo holds nothing but what the instance factory constructed.
    #[verifier::type_invariant]
    spec fn wf(&self) -> bool {
        forall|memo: Memo<Rc<V>>| #[trigger]
            self.value.inv(memo) <==> (memo@.value matches Some(handle) ==> constructible(
                &self.factory,
                *handle,
            ))
    }

    /// A provider with an empty memo around the kept instance factory.
    fn build(factory: Held<Box<dyn InstanceFactory<C, V, P>>>) -> (provider: Self)
        ensures
            forall|container: &C, params: &P, value: V| #[trigger]
                provider.constructs(container, params, value) == factory.item.constructs(
                    container,
                    params,
                    value,
                ),
    {
        let ghost holds = |memo: Memo<Rc<V>>|
            memo@.value matches Some(handle) ==> constructible(&factory, *handle);
        let value = InvCell::new(Memo::new(), Ghost(holds));
        Singleton { factory, value }
    }

    /// Create new singleton provider instance. Its memo is empty, and what
    /// it constructs is what `factory` does.
    pub fn new(factory: Box<dyn InstanceFactory<C, V, P>>) -> (provider: Self)
        ensures
            forall|container: &C, params: &P, value: V| #[trigger]
                provider.constructs(container, params, value) == factory.constructs(
                    container,
                    params,
                    value,
                ),
    {
        let held = Held::new(factory);
        Self::build(held)
    }

    /// Create new instance wrapped in the Box.
    pub fn boxed(factory: Box<dyn InstanceFactory<C, V, P>>) -> (provider: Box<Self>)
        ensures
            forall|container: &C, params: &P, value: V| #[trigger]
                provider.constructs(container, params, value) == factory.constructs(
                    container,
                    params,
                    value,
                ),
    {
        let held = Held::new(factory);
        Box::new(Self::build(held))
    }

    /// Return true if value was not created yet, or not since the last
    /// `clear`: the answer for the memo as the call found it, `found`.
    pub fn is_empty(&self) -> (empty: bool)
        ensures
            exists|found: MemoState<Rc<V>>|
                #[trigger] self.may_hold(found) && empty == (found.value is None),
    {
        proof {
            use_type_invariant(self);
        }
        let memo = self.value.replace(Memo::new());
        let ghost found = memo@;
        let empty = memo.is_empty();
        self.value.replace(memo);
        proof {
            if let Some(handle) = found.value {
                let (container, params) = choose|c: &C, p: &P|
                    self.factory.item.constructs(c, p, *handle);
                assert(self.constructs(container, params, *handle));
            }
            assert(self.may_hold(found) && empty == (found.value is None));
        }
        empty
    }

    /// Empty the memo: the next `get` constructs the value anew.
    pub fn clear(&self) {
        proof {
            use_type_invariant(self);
        }
        let mut memo = self.value.replace(Memo::new());
        memo.clear();
        self.value.replace(memo);
    }

    /// Whether the memo of this provider may be in `state`. All that holds
    /// of the memo at every time is that it is empty or holds a handle to a
    /// value that the instance factory constructed, from some container and
    /// params.
    pub open spec fn may_hold(&self, state: MemoState<Rc<V>>) -> bool {
        state.value matches Some(handle) ==> exists|container: &C, params: &P|
            self.constructs(container, params, *handle)
    }

    /// If value is empty, create new value. Either way hand out a handle to
    /// the value that the memo then holds. While the value is created the
    /// memo is empty.
    fn prepare_value(&self, container: &C, params: &P) -> (handle: Rc<V>)
        ensures
            constructible(&self.factory, *handle),
    {
        proof {
            use_type_invariant(self);
        }
        let mut memo = self.value.replace(Memo::new());
        let create = || -> (fresh: Rc<V>)
            ensures
                self.constructs(container, params, *fresh),
            { Rc::new(self.create_instance(container, params)) };
        memo.prepare_value(create);
        let handle = share_rc(memo.get_value());
        self.value.replace(memo);
        handle
    }

    /// Get value from the handle.
    fn get_value(handle: &Rc<V>) -> (value: V)
        ensures
            cloned(**handle, value),
    {
        (**handle).clone()
    }

    /// Create new instance of the value.
    fn create_instance(&self, container: &C, params: &P) -> (value: V)
        ensures
            self.constructs(container, params, value),
    {
        self.factory.item.new_instance(container, params)
    }
}

impl<C, V, P> Provider<C, V, P> for Singleton<C, V, P> where V: Clone {
    /// A singleton is always ready.
    open spec fn ready(&self) -> bool {
        true
    }

    /// A singleton provides clones of a value that its instance factory
    /// constructed. That may have been on an earlier call, so the container
    /// and params it was constructed from need not be those of this call.
    open spec fn provides(&self, container: &C, params: &P, value: V) -> bool {
        exists|first_container: &C, first_params: &P, made: V|
            self.constructs(first_container, first_params, made) && cloned(made, value)
    }

    /// Each call clone prepared value.
    /// If value is not prepared, create new value, store it in the Singleton
    /// instance and clone it.
    fn get(&self, container: &C, params: &P) -> (value: V) {
        let handle = self.prepare_value(container, params);
        let value = Self::get_value(&handle);
        proof {
            let (first_container, first_params) = choose|c: &C, p: &P|
                self.factory.item.constructs(c, p, *handle);
            assert(self.constructs(first_container, first_params, *handle) && cloned(
                *handle,
                value,
            ));
        }
        value
    }
}

} // verus!
