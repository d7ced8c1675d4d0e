//! Handles shared between the tasks of one service.

use std::sync::Arc;
use vstd::prelude::*;

verus! {

/// `Arc::clone` hands out one more pointer to the same allocation: the new
/// handle points at the value that `handle` points at.
#[verifier::external_body]
pub(crate) fn share<R>(handle: &Arc<R>) -> (shared: Arc<R>)
    ensures
        shared == *handle,
{
    Arc::clone(handle)
}

} // verus!
