use crate::lifo::{on_top, put_on_top, taken};
use crate::providers::provider::Provider;
use vstd::prelude::*;

verus! {

/// Stack proxy for normal providers.
///
/// A provider encapsulated in this proxy can be overridden by another
/// provider, and the override can be taken back, which puts the provider
/// below it in effect again.
#[verifier::reject_recursive_types(C)]
#[verifier::reject_recursive_types(V)]
#[verifier::reject_recursive_types(P)]
pub struct ProviderStack<C, V, P> {
    provider_stack: Vec<Box<dyn Provider<C, V, P>>>,
}

impl<C, V, P> View for ProviderStack<C, V, P> {
    type V = Seq<Box<dyn Provider<C, V, P>>>;

    /// The providers on the stack, the one in effect last.
    closed spec fn view(&self) -> Self::V {
        self.provider_stack@
    }
}

impl<C, V, P> ProviderStack<C, V, P> {
    /// Create new instance with initial provider set on top of the stack.
    pub fn new(provider: Box<dyn Provider<C, V, P>>) -> (stack: Self)
        ensures
            stack@ == on_top(provider, Seq::empty()),
            stack@.len() == 1,
            stack@.last() == provider,
    {
        let mut provider_stack = Vec::new();
        put_on_top(provider, &mut provider_stack);
        ProviderStack { provider_stack }
    }

    /// Push new provider on the stack.
    pub fn push(&mut self, provider: Box<dyn Provider<C, V, P>>)
        ensures
            final(self)@ == on_top(provider, old(self)@),
            final(self)@.len() == old(self)@.len() + 1,
            final(self)@.last() == provider,
    {
        put_on_top(provider, &mut self.provider_stack);
    }

    /// Pop current provider from the stack, which puts the one below it in
    /// effect. On a stack without providers there is nothing to pop.
    pub fn pop(&mut self) -> (popped: Option<Box<dyn Provider<C, V, P>>>)
        ensures
            popped == taken(old(self)@).0,
            final(self)@ == taken(old(self)@).1,
    {
        self.provider_stack.pop()
    }

    /// Return size of the stack.
    pub fn len(&self) -> (len: usize)
        ensures
            len == self@.len(),
    {
        self.provider_stack.len()
    }

    /// Return true if stack is empty, false otherwise.
    pub fn is_empty(&self) -> (empty: bool)
        ensures
            empty == (self@.len() == 0),
    {
        self.provider_stack.len() == 0
    }
}

impl<C, V, P> Provider<C, V, P> for ProviderStack<C, V, P> {
    /// A stack is ready where it has a provider on top and that one is.
    open spec fn ready(&self) -> bool {
        self@.len() > 0 && self@.last().ready()
    }

    /// A stack provides what the provider on top of it provides.
    open spec fn provides(&self, container: &C, params: &P, value: V) -> bool {
        self@.len() > 0 && self@.last().provides(container, params, value)
    }

    /// Get value from top level provider.
    ///
    /// A stack without providers is not ready, and `get` may not be called
    /// on it. Where code that is not verified calls it all the same, the
    /// call panics.
    fn get(&self, container: &C, params: &P) -> (value: V) {
        let top: usize = self.provider_stack.len() - 1;
        self.provider_stack[top].get(container, params)
    }
}

impl<C, V, P> Default for ProviderStack<C, V, P> {
    /// A stack without providers.
    fn default() -> (stack: Self)
        ensures
            stack@.len() == 0,
    {
        ProviderStack { provider_stack: Vec::new() }
    }
}

/// Override: with `provider` put on top, the stack is one deeper and behaves
/// as `provider` does, whatever was in effect before.
pub proof fn lemma_push_overrides<C, V, P>(
    provider: Box<dyn Provider<C, V, P>>,
    before: ProviderStack<C, V, P>,
    pushed: ProviderStack<C, V, P>,
)
    requires
        pushed@ == on_top(provider, before@),
    ensures
        pushed@.len() == before@.len() + 1,
        pushed.ready() == provider.ready(),
        forall|container: &C, params: &P, value: V| #[trigger]
            pushed.provides(container, params, value) == provider.provides(
                container,
                params,
                value,
            ),
{
}

/// Restore: popping right after a push hands the pushed provider back and
/// leaves a stack that holds and provides what it did before the push.
pub proof fn lemma_pop_restores<C, V, P>(
    provider: Box<dyn Provider<C, V, P>>,
    before: ProviderStack<C, V, P>,
    pushed: ProviderStack<C, V, P>,
    popped: ProviderStack<C, V, P>,
)
    requires
        pushed@ == on_top(provider, before@),
        popped@ == taken(pushed@).1,
    ensures
        taken(pushed@).0 == Some(provider),
        popped@ == before@,
        popped.ready() == before.ready(),
        forall|container: &C, params: &P, value: V| #[trigger]
            popped.provides(container, params, value) == before.provides(
                container,
                params,
                value,
            ),
{
    crate::lifo::lemma_taken_undoes_on_top(provider, before@);
}

/// A stack without providers is not ready, provides nothing, and has nothing
/// to pop.
pub proof fn lemma_empty_provides_nothing<C, V, P>(stack: ProviderStack<C, V, P>)
    requires
        stack@.len() == 0,
    ensures
        !stack.ready(),
        taken(stack@).0 is None,
        taken(stack@).1 == stack@,
        forall|container: &C, params: &P, value: V| !#[trigger] stack.provides(
            container,
            params,
            value,
        ),
{
}

} // verus!
