use crate::lifo::{on_top, put_on_top, taken};
use crate::types::InstanceManager;
use vstd::prelude::*;

verus! {

/// Helper instance manager capable to stack other managers and use the top
/// one.
#[verifier::reject_recursive_types(T)]
#[verifier::reject_recursive_types(Args)]
pub struct InstanceManagerStack<T, Args> {
    /// The stack of the stored managers
    stack: Vec<Box<dyn InstanceManager<T, Args>>>,
}

impl<T, Args> View for InstanceManagerStack<T, Args> {
    type V = Seq<Box<dyn InstanceManager<T, Args>>>;

    /// The managers on the stack, the one in use last.
    closed spec fn view(&self) -> Self::V {
        self.stack@
    }
}

impl<T, Args> InstanceManagerStack<T, Args> {
    /// A stack with `manager` as its one entry.
    pub fn new(manager: Box<dyn InstanceManager<T, Args>>) -> (stack: Self)
        ensures
            stack@ == on_top(manager, Seq::empty()),
            stack@.len() == 1,
            stack@.last() == manager,
    {
        let mut stack = Vec::new();
        put_on_top(manager, &mut stack);
        Self { stack }
    }

    /// A stack without managers.
    pub fn empty() -> (stack: Self)
        ensures
            stack@.len() == 0,
    {
        Self { stack: Vec::new() }
    }

    /// Put `manager` on top of the stack.
    pub fn push(&mut self, manager: Box<dyn InstanceManager<T, Args>>)
        ensures
            final(self)@ == on_top(manager, old(self)@),
            final(self)@.len() == old(self)@.len() + 1,
            final(self)@.last() == manager,
    {
        put_on_top(manager, &mut self.stack);
    }

    /// Take the top manager off the stack, which puts the one below it in
    /// use. On a stack without managers there is nothing to take.
    pub fn pop(&mut self) -> (popped: Option<Box<dyn InstanceManager<T, Args>>>)
        ensures
            popped == taken(old(self)@).0,
            final(self)@ == taken(old(self)@).1,
    {
        self.stack.pop()
    }

    /// Return true if the stack has no manager.
    pub fn is_empty(&self) -> (empty: bool)
        ensures
            empty == (self@.len() == 0),
    {
        self.stack.len() == 0
    }

    /// Return the number of managers on the stack.
    pub fn len(&self) -> (len: usize)
        ensures
            len == self@.len(),
    {
        self.stack.len()
    }
}

impl<T, Args> InstanceManager<T, Args> for InstanceManagerStack<T, Args> {
    /// A stack serves what the manager on top of it serves, and nothing
    /// where it has none.
    open spec fn serves(&self, args: &Args) -> bool {
        self@.len() > 0 && self@.last().serves(args)
    }

    /// A stack yields what the manager on top of it yields.
    open spec fn yields(&self, args: &Args, instance: T) -> bool {
        self@.len() > 0 && self@.last().yields(args, instance)
    }

    /// Get the instance from the manager on top of the stack.
    ///
    /// A stack without managers serves nothing, and `get_instance` may not
    /// be called on it. Where code that is not verified calls it all the
    /// same, the call panics.
    fn get_instance(&self, args: &Args) -> (instance: T) {
        let top: usize = self.stack.len() - 1;
        self.stack[top].get_instance(args)
    }
}

} // verus!
