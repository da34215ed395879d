//! The mutual-exclusion cell that wraps each peripheral's mutable state.
//!
//! The boot environment is single-core and non-preemptive, so the cell
//! performs no blocking or spinning: its whole job is to make "one owner
//! at a time" a structural property of the API. Access is handed out as
//! one scoped mutable borrow per call, so two simultaneously-live
//! exclusive accesses to the wrapped state cannot be expressed at all.

use vstd::prelude::*;

use crate::interface::Mutex;

verus! {

/// Owns exactly one peripheral's mutable state. Created once per
/// peripheral at process start and never reassigned.
pub struct NullLock<T> {
    pub data: T,
}

impl<T> NullLock<T> {
    pub fn new(data: T) -> (r: NullLock<T>)
        ensures
            r.data == data,
    {
        NullLock { data }
    }
}

impl<T> Mutex for NullLock<T> {
    type Data = T;

    open spec fn contents(&self) -> T {
        self.data
    }

    fn lock(&mut self) -> (guard: &mut T) {
        &mut self.data
    }
}

} // verus!
