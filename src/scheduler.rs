use vstd::prelude::*;
use crate::outcome::RunOutcome;
use crate::request::{StatusRequest, WatchTarget};
use crate::status::{FetchError, RunStatus};

verus! {

/// Whether the watcher is still waiting for the run to complete.
/// `Fired` is absorbing: once the completion has been seen, nothing
/// brings the watcher back to `Active`.
#[derive(Clone, Copy, Debug, PartialEq, Eq, Structural)]
pub enum SchedulerState {
    Active,
    Fired,
}

/// What one status query reported: a status, or why there was none.
pub type FetchReport = Result<RunStatus, FetchError>;

/// What the caller must do after a tick.
#[derive(Clone, Debug, PartialEq, Eq)]
pub enum TickAction {
    /// The watcher had already fired; the tick did nothing.
    Idle,
    /// The run is still pending; wait for the next tick.
    KeepWatching,
    /// The query failed; nothing changed and the next tick polls again.
    FetchFailed(FetchError),
    /// The run completed on this tick: deliver this outcome, once, and stop ticking.
    Notify(RunOutcome),
}

/// The state after one tick that saw `report`.
pub open spec fn next_state(state: SchedulerState, report: FetchReport) -> SchedulerState {
    match state {
        SchedulerState::Fired => SchedulerState::Fired,
        SchedulerState::Active => match report {
            Ok(RunStatus::Completed { .. }) => SchedulerState::Fired,
            _ => SchedulerState::Active,
        },
    }
}

/// The action of one tick that saw `report` in `state`, for a run watched
/// under the label `name`.
pub open spec fn tick_action(state: SchedulerState, name: String, report: FetchReport) -> TickAction {
    match state {
        SchedulerState::Fired => TickAction::Idle,
        SchedulerState::Active => match report {
            Err(e) => TickAction::FetchFailed(e),
            Ok(RunStatus::Pending) => TickAction::KeepWatching,
            Ok(RunStatus::Completed { conclusion }) => TickAction::Notify(
                RunOutcome { step_name: name, step_status: conclusion },
            ),
        },
    }
}

/// Owns the watched target and the one bit of state that makes the
/// notification happen at most once.
pub struct PollScheduler {
    target: WatchTarget,
    state: SchedulerState,
}

impl PollScheduler {
    /// The scheduler's current state.
    pub closed spec fn spec_state(&self) -> SchedulerState {
        self.state
    }

    /// The target the scheduler watches.
    pub closed spec fn spec_target(&self) -> WatchTarget {
        self.target
    }

    /// A scheduler that starts watching `target`.
    pub fn new(target: WatchTarget) -> (r: PollScheduler)
        ensures
            r.spec_state() == SchedulerState::Active,
            r.spec_target() == target,
    {
        PollScheduler { target, state: SchedulerState::Active }
    }

    pub fn state(&self) -> (r: SchedulerState)
        ensures
            r == self.spec_state(),
    {
        self.state
    }

    /// Whether the completion has been seen, after which no tick polls.
    pub fn is_fired(&self) -> (r: bool)
        ensures
            r == (self.spec_state() == SchedulerState::Fired),
    {
        self.state == SchedulerState::Fired
    }

    pub fn target(&self) -> (r: &WatchTarget)
        ensures
            *r == self.spec_target(),
    {
        &self.target
    }

    /// The query a tick should send, or `None` once the scheduler has
    /// fired, when a tick sends nothing.
    pub fn status_request(&self) -> (r: Option<StatusRequest>)
        ensures
            r is None <==> self.spec_state() == SchedulerState::Fired,
            r is Some ==> r->0.url@ == crate::request::RUNS_ENDPOINT@ + self.spec_target().run_id@,
            r is Some ==> r->0.user_agent@ == crate::request::CLIENT_ID@,
            r is Some ==> r->0.accept@ == crate::request::ACCEPT_FORMAT@,
            r is Some ==> r->0.authorization@ == crate::request::AUTH_SCHEME@
                + self.spec_target().credential@,
    {
        match self.state {
            SchedulerState::Fired => None,
            SchedulerState::Active => Some(StatusRequest::for_target(&self.target)),
        }
    }

    /// One tick, given what this tick's status query reported.
    ///
    /// Once fired, a tick does nothing. Otherwise a failed query or a
    /// pending run leaves the state as it was, and a completed run moves
    /// the scheduler to `Fired` and yields the outcome to deliver.
    pub fn tick(&mut self, report: FetchReport) -> (r: TickAction)
        ensures
            final(self).spec_state() == next_state(old(self).spec_state(), report),
            final(self).spec_target() == old(self).spec_target(),
            r == tick_action(old(self).spec_state(), old(self).spec_target().display_name, report),
    {
        match self.state {
            SchedulerState::Fired => TickAction::Idle,
            SchedulerState::Active => match report {
                Err(e) => TickAction::FetchFailed(e),
                Ok(status) => {
                    if status.is_completed() {
                        self.state = SchedulerState::Fired;
                        let name = self.target.display_name.clone();
                        TickAction::Notify(RunOutcome::from_status(name, status))
                    } else {
                        TickAction::KeepWatching
                    }
                },
            },
        }
    }
}

} // verus!
