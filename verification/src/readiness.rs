//! Readiness of a compute kernel: compiled asynchronously, usable once ready.

use vstd::prelude::*;

verus! {

/// Whether a kernel can be dispatched yet.
///
/// A kernel starts out `Loading` and becomes `Ready` the first time the
/// kernel repository reports it compiled. It never goes back.
#[derive(Clone, Copy, Debug, PartialEq, Eq, Structural)]
pub enum KernelState {
    Loading,
    Ready,
}

impl KernelState {
    /// The state after one poll of the repository.
    pub open spec fn after_poll(self, compiled: bool) -> KernelState {
        if self == KernelState::Ready || compiled {
            KernelState::Ready
        } else {
            KernelState::Loading
        }
    }

    /// The state after a run of polls, oldest first.
    pub open spec fn after_polls(self, compiled: Seq<bool>) -> KernelState
        decreases compiled.len(),
    {
        if compiled.len() == 0 {
            self
        } else {
            self.after_polls(compiled.drop_last()).after_poll(compiled.last())
        }
    }

    /// Takes one readiness report from the repository.
    pub fn poll(self, compiled: bool) -> (next: KernelState)
        ensures
            next == self.after_poll(compiled),
    {
        match self {
            KernelState::Ready => KernelState::Ready,
            KernelState::Loading => if compiled {
                KernelState::Ready
            } else {
                KernelState::Loading
            },
        }
    }

    /// Whether a dispatch of this kernel may be recorded.
    pub fn is_ready(self) -> (ready: bool)
        ensures
            ready == (self == KernelState::Ready),
    {
        match self {
            KernelState::Ready => true,
            KernelState::Loading => false,
        }
    }
}

/// Readiness is terminal: once a kernel is ready, no later report makes it
/// load again.
pub proof fn ready_is_terminal(compiled: Seq<bool>)
    ensures
        KernelState::Ready.after_polls(compiled) == KernelState::Ready,
    decreases compiled.len(),
{
    if compiled.len() > 0 {
        ready_is_terminal(compiled.drop_last());
    }
}

/// A kernel is ready after a run of polls exactly when it was ready before
/// or some poll in the run reported it compiled.
pub proof fn ready_once_reported(start: KernelState, compiled: Seq<bool>)
    ensures
        start.after_polls(compiled) == KernelState::Ready <==> (start == KernelState::Ready
            || exists|i: int| 0 <= i < compiled.len() && compiled[i]),
    decreases compiled.len(),
{
    if compiled.len() > 0 {
        let earlier = compiled.drop_last();
        ready_once_reported(start, earlier);
        if start != KernelState::Ready {
            if exists|i: int| 0 <= i < compiled.len() && compiled[i] {
                let i = choose|i: int| 0 <= i < compiled.len() && compiled[i];
                if i < earlier.len() {
                    assert(earlier[i]);
                }
            }
            if exists|i: int| 0 <= i < earlier.len() && earlier[i] {
                let i = choose|i: int| 0 <= i < earlier.len() && earlier[i];
                assert(compiled[i]);
            }
        }
    }
}

} // verus!
