use vstd::prelude::*;

verus! {

/// The entries `below` with `top` put on them. A stack is a sequence whose
/// last entry is its top.
pub open spec fn on_top<T>(top: T, below: Seq<T>) -> Seq<T> {
    below.push(top)
}

/// What taking the top entry off `entries` hands out, and what it leaves:
/// nothing and the same entries where there is none to take.
pub open spec fn taken<T>(entries: Seq<T>) -> (Option<T>, Seq<T>) {
    if entries.len() == 0 {
        (None, entries)
    } else {
        (Some(entries.last()), entries.drop_last())
    }
}

/// Put `top` on the entries.
///
/// The entry's type is a parameter here, so a boxed trait object is stored
/// as the value that was given.
pub fn put_on_top<T>(top: T, entries: &mut Vec<T>)
    ensures
        final(entries)@ == on_top(top, old(entries)@),
{
    entries.push(top);
}

/// Last in, first out: taking the top off right after an entry was put on
/// hands out that entry and leaves the entries as they were before.
pub proof fn lemma_taken_undoes_on_top<T>(top: T, below: Seq<T>)
    ensures
        taken(on_top(top, below)).0 == Some(top),
        taken(on_top(top, below)).1 == below,
{
    assert(on_top(top, below).drop_last() =~= below);
}

/// Putting an entry on makes the stack one deeper and makes that entry the
/// top, whatever was there before.
pub proof fn lemma_on_top_is_top<T>(top: T, below: Seq<T>)
    ensures
        on_top(top, below).len() == below.len() + 1,
        on_top(top, below).last() == top,
{
}

/// Taking from a stack with entries makes it one shallower; taking from one
/// without entries hands out nothing and leaves it without entries.
pub proof fn lemma_taken_depth<T>(entries: Seq<T>)
    ensures
        entries.len() > 0 ==> taken(entries).0 is Some && taken(entries).1.len() == entries.len()
            - 1,
        entries.len() == 0 ==> taken(entries).0 is None && taken(entries).1.len() == 0,
{
}

} // verus!
