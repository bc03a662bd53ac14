//! The synchronized console handle: the lock-protected facade over the
//! buffer/scroll engine.
//!
//! The handle owns the engine behind a busy-wait lock, so at most one
//! ingestion runs at a time and two callers never interleave their writes:
//! writes serialize in lock-acquisition order, a whole string at a time. The
//! handle is created once, explicitly, and shared by reference.
//!
//! The trusted boundary here is the lock alone: taking it, and reaching the
//! engine through the guard. Every call into the engine itself is made from
//! verified code, so its preconditions are checked and its contracts apply.

use vstd::prelude::*;
use crate::console::{initial_state, ColoredGlyph, ConsoleData, ScreenState};
use crate::cursor::Location;
use crate::{HEIGHT, WIDTH};

verus! {

#[verifier::external_type_specification]
#[verifier::external_body]
#[verifier::reject_recursive_types(T)]
#[verifier::reject_recursive_types(R)]
/// The busy-wait lock of the `spin` crate, declared so the handle can hold
/// the engine inside it.
pub struct ExSpinMutex<T: ?Sized, R>(spin::mutex::Mutex<T, R>);

#[verifier::external_type_specification]
#[verifier::external_body]
#[verifier::reject_recursive_types(T)]
#[verifier::reject_recursive_types(R)]
/// The guard that `lock` hands out, declared so verified code can hold it
/// while it works on the engine; dropping it releases the lock.
pub struct ExSpinMutexGuard<'a, T: 'a + ?Sized, R>(spin::mutex::MutexGuard<'a, T, R>);

#[verifier::external_type_specification]
#[verifier::external_body]
/// The relax strategy a busy-wait lock spins with, declared so the lock's
/// default strategy can appear in the mutex type.
pub struct ExSpin(spin::relax::Spin);

/// What the lock was built around: the screen state of the engine handed to
/// `spin::Mutex::new`. The mutex value Verus sees never changes, so this
/// names the construction state; the engine's current state lives behind the
/// lock and is reached only through the guard.
pub uninterp spec fn engine_model(m: &spin::Mutex<ConsoleData>) -> ScreenState;

/// Relies on spin::Mutex::new: returns a new, unlocked mutex holding exactly
/// the engine it is given.
#[verifier::external_body]
fn mutex_new(data: ConsoleData) -> (m: spin::Mutex<ConsoleData>)
    ensures
        engine_model(&m) == data@,
{
    spin::Mutex::new(data)
}

/// Relies on spin::Mutex::lock: busy-waits until the lock is free and
/// returns the guard; the lock is held until the guard drops.
#[verifier::external_body]
fn mutex_lock<'a>(m: &'a spin::Mutex<ConsoleData>) -> spin::mutex::MutexGuard<'a, ConsoleData> {
    m.lock()
}

/// Relies on spin::MutexGuard's DerefMut: exclusive access to the engine
/// while the guard is held. The one trusted clause is the engine's
/// well-formedness: every engine a `Console` puts behind its mutex was built
/// by `ConsoleData::new` and touched only by the engine's own verified
/// methods, all of which establish and preserve it.
#[verifier::external_body]
fn guard_engine<'a, 'b>(
    guard: &'b mut spin::mutex::MutexGuard<'a, ConsoleData>,
) -> (engine: &'b mut ConsoleData)
    ensures
        (*engine).wf(),
{
    &mut **guard
}

/// The synchronized console: the engine behind a busy-wait lock. What each
/// operation does to the screen is stated and proved on `ConsoleData`; this
/// handle adds mutual exclusion around it, which Verus does not check.
pub struct Console {
    inner: spin::Mutex<ConsoleData>,
}

impl Console {
    /// The screen state the engine behind this handle started in.
    pub closed spec fn initial_screen(&self) -> ScreenState {
        engine_model(&self.inner)
    }

    /// Creates the console: an engine in its initial state — cleared buffer,
    /// blank screen, cursor at the first cell — behind a fresh lock. Meant
    /// to be created once, during startup, and shared by reference.
    pub fn new() -> (c: Console)
        ensures
            c.initial_screen() == initial_state(),
    {
        Console { inner: mutex_new(ConsoleData::new()) }
    }

    /// Ingests a string as one critical section: the row-by-row algorithm of
    /// `ConsoleData::write_str`, with no writes from other callers
    /// interleaved below string granularity.
    pub fn write_str(&self, s: &str) {
        let mut guard = mutex_lock(&self.inner);
        let engine = guard_engine(&mut guard);
        engine.write_str(s);
    }

    /// Reads one output-surface cell under the lock, or `None` outside the
    /// screen.
    pub fn surface_cell(&self, row: usize, col: usize) -> (r: Option<ColoredGlyph>)
        ensures
            r is Some <==> row < HEIGHT && col < WIDTH,
    {
        if row < HEIGHT && col < WIDTH {
            let mut guard = mutex_lock(&self.inner);
            let engine = guard_engine(&mut guard);
            Some(engine.surface_cell(row, col))
        } else {
            None
        }
    }

    /// Reads the cursor location under the lock.
    pub fn location(&self) -> Location {
        let mut guard = mutex_lock(&self.inner);
        let engine = guard_engine(&mut guard);
        engine.location()
    }
}

} // verus!
