//! Waiting for the database file to appear.
//!
//! The file is created by an external initializer that this process cannot
//! await directly, so readiness is established by bounded polling: one
//! unconditional wait window (taken even when the file is already visible,
//! since the external writer may still be mid-write), then a re-check, then
//! one longer window and a final check. A file still absent after both
//! windows is a fatal condition.

use vstd::prelude::*;
use crate::config;

verus! {

/// Where the waiter stands in its two-window schedule.
#[derive(Clone, Copy, PartialEq, Eq, Debug)]
pub enum WaiterPhase {
    /// No window has elapsed yet.
    Start,
    /// The first, unconditional window has elapsed.
    WaitedOnce,
    /// Both windows have elapsed.
    WaitedTwice,
    /// The file was observed after a window: connection may begin.
    Ready,
    /// The file never appeared within both windows: fatal.
    TimedOut,
}

/// What the driver must do next.
#[derive(Clone, Copy, PartialEq, Eq, Debug)]
pub enum WaitAction {
    /// Suspend for the given duration, then observe the file again.
    Wait { duration_ms: u64 },
    /// The file is present: proceed to connection establishment.
    Proceed,
    /// The file never appeared: abort.
    Abort,
}

/// One observation of the database file, as the driver reports it.
/// Only `exists` steers the protocol; size and read-only state are
/// diagnostic and may be absent when the file could not be inspected.
#[derive(Clone, Copy, PartialEq, Eq, Debug)]
pub struct FileStatus {
    /// Whether the file entry exists.
    pub exists: bool,
    /// The file's size in bytes, when it exists and could be inspected.
    pub size_bytes: Option<u64>,
    /// Whether the file is read-only, when it could be inspected.
    pub readonly: Option<bool>,
}

/// The waiter's transition function: from the current phase and a fresh
/// existence observation to the next phase and the action owed.
///
/// From `Start` the first window is taken unconditionally: the observation
/// is ignored. Afterwards an observed file means `Proceed`; an absent file
/// means the second window, and after that, `Abort`.
pub open spec fn waiter_step_spec(phase: WaiterPhase, file_exists: bool) -> (WaiterPhase,
    WaitAction) {
    match phase {
        WaiterPhase::Start => (
            WaiterPhase::WaitedOnce,
            WaitAction::Wait { duration_ms: config::FIRST_WAIT_MS },
        ),
        WaiterPhase::WaitedOnce => if file_exists {
            (WaiterPhase::Ready, WaitAction::Proceed)
        } else {
            (WaiterPhase::WaitedTwice, WaitAction::Wait { duration_ms: config::SECOND_WAIT_MS })
        },
        WaiterPhase::WaitedTwice => if file_exists {
            (WaiterPhase::Ready, WaitAction::Proceed)
        } else {
            (WaiterPhase::TimedOut, WaitAction::Abort)
        },
        _ => (phase, WaitAction::Abort),
    }
}

/// How many wait windows have elapsed in a given phase. `Ready` is excluded:
/// it can be reached after either window.
pub open spec fn windows_elapsed_spec(phase: WaiterPhase) -> nat {
    match phase {
        WaiterPhase::Start => 0,
        WaiterPhase::WaitedOnce => 1,
        WaiterPhase::WaitedTwice => 2,
        WaiterPhase::Ready => 0,  // not determined by the phase alone
        WaiterPhase::TimedOut => 2,
    }
}

/// The polling state machine. The driver observes the file, feeds the
/// observation to [`ReadinessWaiter::observe`], performs the returned
/// action, and repeats until `Proceed` or `Abort`.
pub struct ReadinessWaiter {
    /// Where the schedule stands.
    pub phase: WaiterPhase,
    /// How many wait windows have elapsed so far.
    pub windows_waited: u32,
}

impl ReadinessWaiter {
    /// The window counter agrees with the phase.
    pub open spec fn wf(self) -> bool {
        &&& (self.phase is Ready ==> 1 <= self.windows_waited <= 2)
        &&& (!(self.phase is Ready) ==> self.windows_waited == windows_elapsed_spec(self.phase))
    }

    /// The waiter has delivered neither `Proceed` nor `Abort` yet.
    pub open spec fn in_progress(self) -> bool {
        self.phase is Start || self.phase is WaitedOnce || self.phase is WaitedTwice
    }

    /// A fresh waiter: no window elapsed, no observation consumed.
    pub fn new() -> (r: ReadinessWaiter)
        ensures
            r.wf(),
            r.phase is Start,
            r.windows_waited == 0,
    {
        ReadinessWaiter { phase: WaiterPhase::Start, windows_waited: 0 }
    }

    /// Consume one observation of the file and answer with the next action.
    ///
    /// The step follows [`waiter_step_spec`] exactly; in particular the first
    /// action is a wait of the first window whatever the observation says,
    /// and the window counter grows exactly when a wait is answered.
    pub fn observe(&mut self, status: &FileStatus) -> (a: WaitAction)
        requires
            old(self).wf(),
            old(self).in_progress(),
        ensures
            final(self).wf(),
            (final(self).phase, a) == waiter_step_spec(old(self).phase, status.exists),
            a is Wait ==> final(self).windows_waited == old(self).windows_waited + 1,
            !(a is Wait) ==> final(self).windows_waited == old(self).windows_waited,
    {
        match self.phase {
            WaiterPhase::Start => {
                self.phase = WaiterPhase::WaitedOnce;
                self.windows_waited = self.windows_waited + 1;
                WaitAction::Wait { duration_ms: config::FIRST_WAIT_MS }
            },
            WaiterPhase::WaitedOnce => {
                if status.exists {
                    self.phase = WaiterPhase::Ready;
                    WaitAction::Proceed
                } else {
                    self.phase = WaiterPhase::WaitedTwice;
                    self.windows_waited = self.windows_waited + 1;
                    WaitAction::Wait { duration_ms: config::SECOND_WAIT_MS }
                }
            },
            _ => {
                if status.exists {
                    self.phase = WaiterPhase::Ready;
                    WaitAction::Proceed
                } else {
                    self.phase = WaiterPhase::TimedOut;
                    WaitAction::Abort
                }
            },
        }
    }
}

/// The first wait is unconditional: from the start, whatever the
/// observation says — even a file that is already visible — the step
/// answers a wait of the first window and checks again only afterwards.
pub proof fn lemma_first_wait_unconditional(file_exists: bool)
    ensures
        waiter_step_spec(WaiterPhase::Start, file_exists).1 == (WaitAction::Wait {
            duration_ms: config::FIRST_WAIT_MS,
        }),
        waiter_step_spec(WaiterPhase::Start, file_exists).0 is WaitedOnce,
{
}

/// A file that never appears leads to an abort after exactly two wait
/// windows — the first, then the second, longer one — never fewer and
/// never a third.
pub proof fn lemma_absent_file_aborts_after_two_windows(first_observation: bool)
    ensures
        ({
            let (p1, a1) = waiter_step_spec(WaiterPhase::Start, first_observation);
            let (p2, a2) = waiter_step_spec(p1, false);
            let (p3, a3) = waiter_step_spec(p2, false);
            &&& a1 == (WaitAction::Wait { duration_ms: config::FIRST_WAIT_MS })
            &&& a2 == (WaitAction::Wait { duration_ms: config::SECOND_WAIT_MS })
            &&& a3 is Abort
            &&& p3 is TimedOut
            &&& windows_elapsed_spec(p3) == 2
        }),
        config::FIRST_WAIT_MS < config::SECOND_WAIT_MS,
{
}

} // verus!
