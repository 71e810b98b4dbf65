use crate::memo::{Memo, MemoState};
use crate::shared::share_arc;
use crate::types::InstanceManager;
use std::sync::Arc;
use vstd::cell::invcell::InvCell;
use vstd::prelude::*;

verus! {

/// What the manager keeps of its factory fn: something to call for an
/// instance.
trait Make<T> {
    spec fn callable(&self) -> bool;

    spec fn makes(&self, instance: T) -> bool;

    fn make(&self) -> (instance: T)
        requires
            self.callable(),
        ensures
            self.makes(instance),
    ;
}

impl<T, F: Fn(()) -> T> Make<T> for F {
    spec fn callable(&self) -> bool {
        call_requires(*self, ((),))
    }

    spec fn makes(&self, instance: T) -> bool {
        call_ensures(*self, ((),), instance)
    }

    fn make(&self) -> (instance: T) {
        self(())
    }
}

/// Always deliver same instance wrapped in the `Arc`.
///
/// The instance is created by a factory callback on call of the
/// `get_instance()` method. Each other call of the `get_instance()` returns
/// the instance created by the first call, until `clear()` empties the
/// manager. The manager keeps its handle to the instance until then, also
/// when the manager itself goes away.
///
/// The stored instance changes behind `&self`, so the contract of a method
/// here cannot speak of what was stored before the call or is after it. It
/// says what holds whatever was stored: nothing gets stored but what the
/// factory fn made. When an instance is created and when it is kept is the
/// contract of `Memo`, on which these methods run.
///
/// # Typical use cases
///
/// * database adapters
/// * loggers
///
/// # Restrictions
///
/// Only unit value is passed as argument because any argument is pointless
/// for this instance manager.
#[verifier::reject_recursive_types(T)]
pub struct Singleton<T> {
    /// The stored instance, or an empty memo if instance was not created yet
    instance: InvCell<Memo<Arc<T>>, spec_fn(Memo<Arc<T>>) -> bool>,
    /// The instance's factory fn
    factory: Box<dyn Make<T>>,
}

impl<T> Singleton<T> {
    /// Whether the factory fn can be called.
    pub closed spec fn callable(&self) -> bool {
        self.factory.callable()
    }

    /// Whether the factory fn may return `instance`.
    pub closed spec fn makes(&self, instance: T) -> bool {
        self.factory.makes(instance)
    }

    /// The memo holds nothing but what the factory fn made.
    #[verifier::type_invariant]
    spec fn wf(&self) -> bool {
        forall|memo: Memo<Arc<T>>| #[trigger]
            self.instance.inv(memo) <==> (memo@.value matches Some(handle) ==> self.factory.makes(
                *handle,
            ))
    }

    /// Create new `Singleton` instance manager, with no instance yet.
    pub fn new<F: Fn(()) -> T + 'static>(factory: Box<F>) -> (manager: Self)
        ensures
            manager.callable() == call_requires(*factory, ((),)),
            forall|instance: T| #[trigger]
                manager.makes(instance) == call_ensures(*factory, ((),), instance),
    {
        let ghost holds = |memo: Memo<Arc<T>>|
            memo@.value matches Some(handle) ==> call_ensures(*factory, ((),), *handle);
        let instance = InvCell::new(Memo::new(), Ghost(holds));
        Self { instance, factory }
    }

    /// Return true if no instance was created yet, or none since the last
    /// `clear`: the answer for the memo as the call found it, `found`.
    pub fn is_empty(&self) -> (empty: bool)
        ensures
            exists|found: MemoState<Arc<T>>|
                #[trigger] self.may_hold(found) && empty == (found.value is None),
    {
        proof {
            use_type_invariant(self);
        }
        let memo = self.instance.replace(Memo::new());
        let ghost found = memo@;
        let empty = memo.is_empty();
        self.instance.replace(memo);
        proof {
            assert(self.may_hold(found) && empty == (found.value is None));
        }
        empty
    }

    /// Clear stored instance: the next `get_instance` creates one anew.
    /// The factory fn stays as it is.
    pub fn clear(&mut self)
        ensures
            final(self).callable() == old(self).callable(),
            forall|instance: T| #[trigger] final(self).makes(instance) == old(self).makes(instance),
    {
        proof {
            use_type_invariant(&*self);
        }
        let mut memo = self.instance.replace(Memo::new());
        memo.clear();
        self.instance.replace(memo);
    }

    /// Whether the memo of this manager may be in `state`. All that holds of
    /// the memo at every time is that it is empty or holds a handle to an
    /// instance that the factory fn made.
    pub open spec fn may_hold(&self, state: MemoState<Arc<T>>) -> bool {
        state.value matches Some(handle) ==> self.makes(*handle)
    }

    /// Create new instance if there is no one. Either way hand out a handle
    /// to the instance that the manager then holds. While the instance is
    /// created the manager holds none.
    fn prepare_instance(&self) -> (handle: Arc<T>)
        requires
            self.callable(),
        ensures
            self.makes(*handle),
    {
        proof {
            use_type_invariant(self);
        }
        let mut memo = self.instance.replace(Memo::new());
        let create = || -> (fresh: Arc<T>)
            requires
                self.callable(),
            ensures
                self.makes(*fresh),
            { self.make_instance() };
        memo.prepare_value(create);
        let handle = share_arc(memo.get_value());
        self.instance.replace(memo);
        handle
    }

    /// Call the factory method and return the instance wrapped in the `Arc`.
    fn make_instance(&self) -> (fresh: Arc<T>)
        requires
            self.callable(),
        ensures
            self.makes(*fresh),
    {
        Arc::new(self.factory.make())
    }
}

impl<T> InstanceManager<Arc<T>> for Singleton<T> {
    /// The manager serves where its factory fn can be called.
    open spec fn serves(&self, args: &()) -> bool {
        self.callable()
    }

    /// Every handle that comes back points to an instance that the factory
    /// fn made, on this call or on an earlier one.
    open spec fn yields(&self, args: &(), instance: Arc<T>) -> bool {
        self.makes(*instance)
    }

    fn get_instance(&self, _args: &()) -> (instance: Arc<T>) {
        self.prepare_instance()
    }
}

} // verus!
