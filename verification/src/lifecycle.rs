//! The driver lifecycle sequencer: every driver steps through
//! `Uninitialized`, `Initializing`, `Ready`, strictly in list order,
//! and the first failure halts the whole sequence.

use vstd::prelude::*;

verus! {

/// Lifecycle state of one driver.
#[derive(Clone, Copy, Debug, PartialEq, Eq, Structural)]
pub enum LifecycleState {
    Uninitialized,
    Initializing,
    Ready,
}

/// Diagnostic for a fatally failed boot: which driver's setup failed.
pub struct DriverError {
    /// Position of the failing driver in the registry's fixed order.
    pub index: usize,
    /// The failing driver's compatibility string.
    pub name: &'static str,
}

/// Per-driver lifecycle bookkeeping for a fixed, ordered list of
/// drivers.
pub struct Registry {
    pub states: Vec<LifecycleState>,
}

impl Registry {
    pub fn new(count: usize) -> (r: Registry)
        ensures
            r.states@.len() == count,
            forall|i: int|
                0 <= i < count ==> r.states@[i] == LifecycleState::Uninitialized,
    {
        let mut states: Vec<LifecycleState> = Vec::new();
        let mut i: usize = 0;
        while i < count
            invariant
                i <= count,
                states@.len() == i,
                forall|j: int| 0 <= j < i ==> states@[j] == LifecycleState::Uninitialized,
            decreases count - i,
        {
            states.push(LifecycleState::Uninitialized);
            i += 1;
        }
        Registry { states }
    }

    /// One driver's setup is about to be invoked.
    pub fn begin(&mut self, i: usize)
        requires
            i < old(self).states@.len(),
        ensures
            final(self).states@ == old(self).states@.update(
                i as int,
                LifecycleState::Initializing,
            ),
    {
        self.states.set(i, LifecycleState::Initializing);
    }

    /// One driver's setup returned success.
    pub fn complete(&mut self, i: usize)
        requires
            i < old(self).states@.len(),
        ensures
            final(self).states@ == old(self).states@.update(i as int, LifecycleState::Ready),
    {
        self.states.set(i, LifecycleState::Ready);
    }

    /// Drive every driver's setup in list order, given the outcome each
    /// setup produces when invoked. Order-preserving and
    /// short-circuiting: the first failure leaves the failing driver in
    /// `Initializing` and every later driver untouched in
    /// `Uninitialized` — their setup is never invoked.
    pub fn initialize_all(&mut self, outcomes: &Vec<bool>) -> (r: Result<(), usize>)
        requires
            outcomes@.len() == old(self).states@.len(),
            forall|i: int|
                0 <= i < old(self).states@.len() ==> old(self).states@[i]
                    == LifecycleState::Uninitialized,
        ensures
            final(self).states@.len() == old(self).states@.len(),
            match r {
                Ok(()) => {
                    &&& forall|i: int| 0 <= i < outcomes@.len() ==> outcomes@[i]
                    &&& forall|i: int|
                        0 <= i < outcomes@.len() ==> final(self).states@[i]
                            == LifecycleState::Ready
                },
                Err(k) => {
                    &&& k < outcomes@.len()
                    &&& !outcomes@[k as int]
                    &&& forall|i: int| 0 <= i < k ==> outcomes@[i]
                    &&& forall|i: int|
                        0 <= i < k ==> final(self).states@[i] == LifecycleState::Ready
                    &&& final(self).states@[k as int] == LifecycleState::Initializing
                    &&& forall|i: int|
                        k < i < outcomes@.len() ==> final(self).states@[i]
                            == LifecycleState::Uninitialized
                },
            },
    {
        let n = outcomes.len();
        let mut i: usize = 0;
        while i < n
            invariant
                i <= n,
                n == outcomes@.len(),
                n == old(self).states@.len(),
                self.states@.len() == n,
                forall|j: int| 0 <= j < i ==> outcomes@[j],
                forall|j: int| 0 <= j < i ==> self.states@[j] == LifecycleState::Ready,
                forall|j: int|
                    i <= j < n ==> self.states@[j] == LifecycleState::Uninitialized,
            decreases n - i,
        {
            self.states.set(i, LifecycleState::Initializing);
            if !outcomes[i] {
                return Err(i);
            }
            self.states.set(i, LifecycleState::Ready);
            i += 1;
        }
        Ok(())
    }
}

} // verus!
