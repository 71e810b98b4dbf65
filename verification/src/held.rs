use vstd::prelude::*;

verus! {

/// Keeps one value exactly as it was handed over.
///
/// A provider keeps its boxed collaborator in one of these. The field's type
/// is the parameter `T` itself, so a boxed trait object moves in as the value
/// it is, and what a contract says of the box that was given holds of the box
/// that is kept.
pub(crate) struct Held<T> {
    pub(crate) item: T,
}

impl<T> Held<T> {
    /// Take `item` into keeping.
    pub(crate) fn new(item: T) -> (held: Self)
        ensures
            held.item == item,
    {
        Held { item }
    }
}

} // verus!
