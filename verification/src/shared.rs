use std::rc::Rc;
use std::sync::Arc;
use vstd::prelude::*;

verus! {

/// `Rc::clone`: a second handle to the allocation behind `handle`. The
/// contract claims what the standard library documents of it: the new handle
/// points to the same value, which is not copied.
#[verifier::external_body]
pub(crate) fn share_rc<T>(handle: &Rc<T>) -> (other: Rc<T>)
    ensures
        other == *handle,
{
    Rc::clone(handle)
}

/// `Arc::clone`: a second handle to the allocation behind `handle`. The
/// contract claims what the standard library documents of it: the new handle
/// points to the same value, which is not copied.
#[verifier::external_body]
pub(crate) fn share_arc<T>(handle: &Arc<T>) -> (other: Arc<T>)
    ensures
        other == *handle,
{
    Arc::clone(handle)
}

} // verus!
