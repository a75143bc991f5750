//! Poll-loop lifecycle: the monitor is either `Idle` (no background task)
//! or `Running` (exactly one background task alive).  The functions here
//! decide every lifecycle transition; actually spawning the task, ticking
//! the timer and delivering the stop signal are outside work, done by the
//! caller around these decisions.

use vstd::prelude::*;

use crate::errors::MonitorError;

verus! {

#[derive(Clone, Copy, Debug, PartialEq, Eq, Structural)]
pub enum MonitorState {
    Idle,
    Running,
}

/// What a `start` call does: spawn (transition to `Running`) from `Idle`,
/// refuse with `AlreadyRunning` — leaving the one task alone — otherwise.
pub open spec fn start_outcome(s: MonitorState) -> (MonitorState, Result<(), MonitorError>) {
    match s {
        MonitorState::Idle => (MonitorState::Running, Ok(())),
        MonitorState::Running => (MonitorState::Running, Err(MonitorError::AlreadyRunning)),
    }
}

/// What a `stop` call does: refuse with `NotRunning` from `Idle`;
/// from `Running` give up the task either way, and report `CancelFailed`
/// when the stop signal could not be delivered (the task was already
/// gone).
pub open spec fn stop_outcome(s: MonitorState, delivered: bool) -> (
    MonitorState,
    Result<(), MonitorError>,
) {
    match s {
        MonitorState::Idle => (MonitorState::Idle, Err(MonitorError::NotRunning)),
        MonitorState::Running => (
            MonitorState::Idle,
            if delivered {
                Ok(())
            } else {
                Err(MonitorError::CancelFailed)
            },
        ),
    }
}

/// Lifecycle state of the clipboard poll loop.
pub struct ClipboardMonitor {
    state: MonitorState,
}

impl ClipboardMonitor {
    pub closed spec fn state_spec(&self) -> MonitorState {
        self.state
    }

    /// A monitor begins its life idle.
    pub fn new() -> (r: ClipboardMonitor)
        ensures
            r.state_spec() == MonitorState::Idle,
    {
        ClipboardMonitor { state: MonitorState::Idle }
    }

    /// Record the decision to start monitoring.  Succeeds exactly from
    /// `Idle`; the caller spawns the background task only on `Ok`.  From
    /// `Running` it returns `AlreadyRunning` and changes nothing, so a
    /// second loop task is never spawned.
    pub fn start(&mut self) -> (r: Result<(), MonitorError>)
        ensures
            (final(self).state_spec(), r) == start_outcome(old(self).state_spec()),
    {
        match self.state {
            MonitorState::Idle => {
                self.state = MonitorState::Running;
                Ok(())
            },
            MonitorState::Running => Err(MonitorError::AlreadyRunning),
        }
    }

    /// Record the outcome of a stop request.  `delivered` reports whether
    /// the caller could hand the single-shot stop signal to the task;
    /// it is only consulted when a task was running.  From `Idle` it
    /// returns `NotRunning`.  From `Running` the monitor is idle
    /// afterwards either way: the cancellation channel endpoint is given
    /// up even when the delivery failed.
    pub fn stop(&mut self, delivered: bool) -> (r: Result<(), MonitorError>)
        ensures
            (final(self).state_spec(), r) == stop_outcome(old(self).state_spec(), delivered),
    {
        match self.state {
            MonitorState::Idle => Err(MonitorError::NotRunning),
            MonitorState::Running => {
                self.state = MonitorState::Idle;
                if delivered {
                    Ok(())
                } else {
                    Err(MonitorError::CancelFailed)
                }
            },
        }
    }

    /// Pure state query; never blocks.
    pub fn is_running(&self) -> (r: bool)
        ensures
            r == (self.state_spec() == MonitorState::Running),
    {
        match self.state {
            MonitorState::Running => true,
            MonitorState::Idle => false,
        }
    }
}

/// Lifecycle exclusivity: starting twice without an intervening stop has
/// the second call refused with `AlreadyRunning`, and the state — hence
/// the set of live loop tasks — unchanged by the second call.
pub proof fn lemma_start_exclusive(s: MonitorState)
    ensures
        ({
            let (s1, r1) = start_outcome(s);
            let (s2, r2) = start_outcome(s1);
            r1 is Ok ==> r2 == Err::<(), MonitorError>(MonitorError::AlreadyRunning) && s2 == s1
        }),
{
}

/// Stop inverts start: after a successful start, a delivered stop returns
/// the monitor to `Idle` and succeeds.
pub proof fn lemma_stop_after_start(s: MonitorState)
    ensures
        ({
            let (s1, r1) = start_outcome(s);
            let (s2, r2) = stop_outcome(s1, true);
            s2 == MonitorState::Idle && r2 is Ok
        }),
{
}

} // verus!
