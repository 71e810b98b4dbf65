use vstd::prelude::*;

verus! {

/// What a memo holds, as a contract sees it: the value, and how many values
/// have been stored in it since it was made.
pub struct MemoState<H> {
    pub value: Option<H>,
    pub built: nat,
}

impl<H> MemoState<H> {
    /// The state of a new memo: no value, nothing stored yet.
    pub open spec fn empty() -> Self {
        MemoState { value: None, built: 0 }
    }

    /// The state after `value` was stored.
    pub open spec fn stored(self, value: H) -> Self {
        MemoState { value: Some(value), built: self.built + 1 }
    }

    /// The state after the memo was cleared.
    pub open spec fn cleared(self) -> Self {
        MemoState { value: None, built: self.built }
    }

    /// The state after the memo was prepared, where `fresh` is what a
    /// construction would give: a held value stays, and `fresh` is stored
    /// only where there was none.
    pub open spec fn prepared(self, fresh: H) -> Self {
        if self.value is Some {
            self
        } else {
            self.stored(fresh)
        }
    }

    /// The state after the memo was prepared once for each entry of `fresh`,
    /// in order.
    pub open spec fn prepared_all(self, fresh: Seq<H>) -> Self
        decreases fresh.len(),
    {
        if fresh.len() == 0 {
            self
        } else {
            self.prepared(fresh[0]).prepared_all(fresh.skip(1))
        }
    }
}

/// The memo slot of a singleton: empty at first, filled by the first
/// construction, empty again after `clear`.
pub struct Memo<H> {
    slot: Option<H>,
    built: Ghost<nat>,
}

impl<H> View for Memo<H> {
    type V = MemoState<H>;

    closed spec fn view(&self) -> MemoState<H> {
        MemoState { value: self.slot, built: self.built@ }
    }
}

impl<H> Memo<H> {
    /// A memo without a value.
    pub fn new() -> (memo: Self)
        ensures
            memo@ == MemoState::<H>::empty(),
    {
        Memo { slot: None, built: Ghost(0) }
    }

    /// Return true if no value is held.
    pub fn is_empty(&self) -> (empty: bool)
        ensures
            empty == (self@.value is None),
    {
        self.slot.is_none()
    }

    /// Drop the held value, if any.
    pub fn clear(&mut self)
        ensures
            final(self)@ == old(self)@.cleared(),
    {
        self.slot = None;
    }

    /// Store `value`, in place of what was held.
    pub fn set_value(&mut self, value: H)
        ensures
            final(self)@ == old(self)@.stored(value),
    {
        self.slot = Some(value);
        proof {
            self.built@ = self.built@ + 1;
        }
    }

    /// The held value.
    pub fn get_value(&self) -> (value: &H)
        requires
            self@.value is Some,
        ensures
            *value == self@.value->0,
    {
        self.slot.as_ref().unwrap()
    }

    /// If the memo is empty, create a value and store it.
    ///
    /// `create` is consumed by its one call, and it is called only on an
    /// empty memo: on a memo that holds a value nothing is asked of `create`,
    /// not even that it can be called.
    pub fn prepare_value<F: FnOnce() -> H>(&mut self, create: F)
        requires
            old(self)@.value is None ==> create.requires(()),
        ensures
            final(self)@.value is Some,
            final(self)@ == old(self)@.prepared(final(self)@.value->0),
            old(self)@.value is None ==> create.ensures((), final(self)@.value->0),
    {
        if self.is_empty() {
            self.set_value(create());
        }
    }
}

/// A memo that holds a value keeps it, however often it is prepared, and no
/// value is stored in it.
pub proof fn lemma_held_value_stays<H>(state: MemoState<H>, fresh: Seq<H>)
    requires
        state.value is Some,
    ensures
        state.prepared_all(fresh) == state,
    decreases fresh.len(),
{
    if fresh.len() > 0 {
        lemma_held_value_stays(state.prepared(fresh[0]), fresh.skip(1));
    }
}

/// Memoization: a new memo is prepared once for each entry of `fresh`. After
/// each of these preparations, from the first on, one value has been stored
/// in the memo, the one that the first preparation constructed, and that is
/// the value it holds: what the later preparations would have constructed
/// never gets in.
pub proof fn lemma_prepared_once<H>(fresh: Seq<H>)
    ensures
        forall|calls: int|
            1 <= calls <= fresh.len() ==> {
                let state = #[trigger] MemoState::<H>::empty().prepared_all(fresh.take(calls));
                state.value == Some(fresh[0]) && state.built == 1
            },
{
    assert forall|calls: int| 1 <= calls <= fresh.len() implies {
        let state = #[trigger] MemoState::<H>::empty().prepared_all(fresh.take(calls));
        state.value == Some(fresh[0]) && state.built == 1
    } by {
        let first = fresh.take(calls);
        assert(first[0] == fresh[0]);
        lemma_held_value_stays(MemoState::<H>::empty().prepared(first[0]), first.skip(1));
    }
}

/// Clearing and preparing again stores exactly one more value, and the memo
/// then holds the newly constructed one, whatever it held before.
pub proof fn lemma_cleared_then_prepared<H>(state: MemoState<H>, fresh: H)
    ensures
        state.cleared().prepared(fresh).value == Some(fresh),
        state.cleared().prepared(fresh).built == state.built + 1,
{
}

} // verus!
