//! The frame counter: a guarded integer shared between the sequencer, which
//! advances it, and the input task, which reads it.
//!
//! The counter stands still while the simulation is paused, so that the
//! buffers keep their roles until it resumes. At the top of its range it
//! returns to zero, which keeps consecutive frames at opposite parity.

use std::sync::Arc;
use vstd::prelude::*;

verus! {

/// `parking_lot::RawMutex`, the lock inside the counter's mutex. Nothing is
/// known of it.
#[verifier::external_type_specification]
#[verifier::external_body]
pub struct ExRawMutex(parking_lot::RawMutex);

/// `lock_api::Mutex`, of which `parking_lot::Mutex` is an instance. Nothing
/// is known of what it holds: another thread may change that at any time.
#[verifier::external_type_specification]
#[verifier::external_body]
#[verifier::reject_recursive_types(R)]
#[verifier::reject_recursive_types(T)]
pub struct ExMutex<R, T: ?Sized>(parking_lot::lock_api::Mutex<R, T>);

/// A held lock on the counter: a `parking_lot::MutexGuard<usize>`, which
/// releases the lock when it is dropped. The guard is kept in a struct of
/// this module because its own declaration is bounded by a trait of its
/// crate.
#[verifier::external_body]
pub struct FrameGuard<'a> {
    guard: parking_lot::MutexGuard<'a, usize>,
}

/// The value behind a held lock. While the guard lives no one else reads or
/// writes the value, so it changes only through the guard.
pub uninterp spec fn guarded_value(guard: FrameGuard<'_>) -> usize;

/// The value a mutex was made with. It is settled when the mutex is made
/// and says nothing of what the mutex holds later.
pub uninterp spec fn made_with(cell: parking_lot::Mutex<usize>) -> usize;

/// Calls `parking_lot::Mutex::new`, which makes an unlocked mutex around
/// the value given.
#[verifier::external_body]
fn new_cell(value: usize) -> (cell: parking_lot::Mutex<usize>)
    ensures
        made_with(cell) == value,
{
    parking_lot::Mutex::new(value)
}

/// Calls `Mutex::lock`, which blocks until the lock is free, and keeps the
/// guard. Nothing is claimed of the value found behind the lock. This
/// module takes the lock only here and holds at most one guard at a time,
/// so a thread never waits on itself.
#[verifier::external_body]
fn lock_cell<'a>(cell: &'a parking_lot::Mutex<usize>) -> (guard: FrameGuard<'a>) {
    FrameGuard { guard: cell.lock() }
}

/// Reads through the guard's `Deref`: the result is the value behind the
/// lock.
#[verifier::external_body]
fn read_guard(guard: &FrameGuard<'_>) -> (value: usize)
    ensures
        value == guarded_value(*guard),
{
    *guard.guard
}

/// Writes through the guard's `DerefMut`: afterwards the value behind the
/// lock is the one given.
#[verifier::external_body]
fn write_guard(guard: &mut FrameGuard<'_>, value: usize)
    ensures
        guarded_value(*final(guard)) == value,
{
    *guard.guard = value;
}

/// The counter after a frame that started at `frame`.
pub open spec fn next_frame(frame: usize, paused: bool) -> usize {
    if paused {
        frame
    } else if frame == usize::MAX {
        0
    } else {
        (frame + 1) as usize
    }
}

/// The counter after a run of frames, given for each whether the
/// simulation was paused in it, oldest first.
pub open spec fn frame_after(start: usize, paused: Seq<bool>) -> usize
    decreases paused.len(),
{
    if paused.len() == 0 {
        start
    } else {
        next_frame(frame_after(start, paused.drop_last()), paused.last())
    }
}

/// How many frames of a run were simulated, that is, not paused.
pub open spec fn simulated_frames(paused: Seq<bool>) -> nat
    decreases paused.len(),
{
    if paused.len() == 0 {
        0
    } else if paused.last() {
        simulated_frames(paused.drop_last())
    } else {
        simulated_frames(paused.drop_last()) + 1
    }
}

/// Frame parity: 0 for an even frame, 1 for an odd one.
pub open spec fn parity(frame: usize) -> int {
    frame as int % 2
}

/// What one step of the counter read and what it left behind.
#[derive(Clone, Copy, Debug, PartialEq, Eq)]
pub struct FrameTick {
    pub before: usize,
    pub after: usize,
}

/// The counter after a frame that started at `frame`.
pub fn advanced(frame: usize, paused: bool) -> (next: usize)
    ensures
        next == next_frame(frame, paused),
{
    if paused {
        frame
    } else if frame == usize::MAX {
        0
    } else {
        frame + 1
    }
}

/// Steps the value behind a held lock for one frame, and reports what it
/// was and what it is now.
fn step_guarded(guard: &mut FrameGuard<'_>, paused: bool) -> (tick: FrameTick)
    ensures
        tick.before == guarded_value(*old(guard)),
        tick.after == guarded_value(*final(guard)),
        tick.after == next_frame(tick.before, paused),
{
    let before: usize = read_guard(guard);
    let after: usize = advanced(before, paused);
    write_guard(guard, after);
    FrameTick { before, after }
}

/// A handle on the shared counter. Clones share one counter.
#[derive(Clone, Debug)]
pub struct FrameCounter {
    cell: Arc<parking_lot::Mutex<usize>>,
}

impl FrameCounter {
    /// The frame the counter was made at. Every handle on one counter
    /// agrees on it, whatever the counter has come to since.
    pub closed spec fn first_frame(&self) -> usize {
        made_with(*self.cell)
    }

    /// A fresh counter, made at frame zero.
    pub fn new() -> (counter: FrameCounter)
        ensures
            counter.first_frame() == 0,
    {
        FrameCounter { cell: Arc::new(new_cell(0)) }
    }

    /// The current frame. Another handle may advance the counter at any
    /// time, so two reads need not agree.
    pub fn get(&self) -> (frame: usize) {
        let guard = lock_cell(&self.cell);
        read_guard(&guard)
    }

    /// Steps the counter for one frame. The lock is held from the read to
    /// the write, so no other handle sees or makes a change in between.
    pub fn advance(&self, paused: bool) -> (tick: FrameTick)
        ensures
            tick.after == next_frame(tick.before, paused),
    {
        let mut guard = lock_cell(&self.cell);
        step_guarded(&mut guard, paused)
    }

    /// Steps the counter for one simulated frame.
    pub fn increment(&self) -> (tick: FrameTick)
        ensures
            tick.after == next_frame(tick.before, false),
    {
        self.advance(false)
    }
}

/// A simulated frame flips the parity, also where the counter returns to
/// zero; a paused frame keeps it.
pub proof fn parity_alternates(frame: usize, paused: bool)
    ensures
        parity(next_frame(frame, paused)) == if paused {
            parity(frame)
        } else {
            1 - parity(frame)
        },
{
    assert(usize::MAX as int % 2 == 1) by {
        assert(usize::BITS == 32 || usize::BITS == 64);
    }
}

/// While every frame of a run is paused, the counter does not move.
pub proof fn paused_run_holds_counter(start: usize, paused: Seq<bool>)
    requires
        forall|i: int| 0 <= i < paused.len() ==> paused[i],
    ensures
        frame_after(start, paused) == start,
    decreases paused.len(),
{
    if paused.len() > 0 {
        paused_run_holds_counter(start, paused.drop_last());
    }
}

/// After any run of frames, paused or not, the counter stands at its
/// starting value plus the number of simulated frames, as long as that sum
/// is within the counter's range.
pub proof fn counter_counts_simulated_frames(start: usize, paused: Seq<bool>)
    requires
        start + simulated_frames(paused) <= usize::MAX,
    ensures
        frame_after(start, paused) == start + simulated_frames(paused),
    decreases paused.len(),
{
    if paused.len() > 0 {
        counter_counts_simulated_frames(start, paused.drop_last());
    }
}

/// After any run of frames, the parity of the counter is the parity of its
/// starting value plus the number of simulated frames: pausing and resuming
/// never puts the buffers out of step.
pub proof fn parity_counts_simulated_frames(start: usize, paused: Seq<bool>)
    ensures
        parity(frame_after(start, paused)) == (start + simulated_frames(paused)) % 2,
    decreases paused.len(),
{
    if paused.len() > 0 {
        parity_counts_simulated_frames(start, paused.drop_last());
        parity_alternates(frame_after(start, paused.drop_last()), paused.last());
    }
}

} // verus!
