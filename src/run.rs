use vstd::prelude::*;
use crate::outcome::RunOutcome;
use crate::scheduler::{next_state, tick_action, FetchReport, SchedulerState, TickAction};
use crate::status::{FetchError, RunStatus};

verus! {

/// Whether a report says that the run has completed.
pub open spec fn reports_completion(report: FetchReport) -> bool {
    match report {
        Ok(RunStatus::Completed { .. }) => true,
        _ => false,
    }
}

/// The state after one tick for each report, in order, starting from `start`.
pub open spec fn state_after(start: SchedulerState, reports: Seq<FetchReport>) -> SchedulerState
    decreases reports.len(),
{
    if reports.len() == 0 {
        start
    } else {
        next_state(state_after(start, reports.drop_last()), reports.last())
    }
}

/// The actions of one tick for each report, in order, starting from `start`.
pub open spec fn actions_of(start: SchedulerState, name: String, reports: Seq<FetchReport>) -> Seq<
    TickAction,
>
    decreases reports.len(),
{
    if reports.len() == 0 {
        Seq::empty()
    } else {
        actions_of(start, name, reports.drop_last()).push(
            tick_action(state_after(start, reports.drop_last()), name, reports.last()),
        )
    }
}

proof fn lemma_action_at(start: SchedulerState, name: String, reports: Seq<FetchReport>, i: int)
    requires
        0 <= i < reports.len(),
    ensures
        actions_of(start, name, reports).len() == reports.len(),
        actions_of(start, name, reports)[i] == tick_action(
            state_after(start, reports.take(i)),
            name,
            reports[i],
        ),
    decreases reports.len(),
{
    lemma_actions_len(start, name, reports);
    let prefix = reports.drop_last();
    if i == reports.len() - 1 {
        assert(prefix =~= reports.take(i));
    } else {
        lemma_action_at(start, name, prefix, i);
        assert(prefix.take(i) =~= reports.take(i));
    }
}

proof fn lemma_actions_len(start: SchedulerState, name: String, reports: Seq<FetchReport>)
    ensures
        actions_of(start, name, reports).len() == reports.len(),
    decreases reports.len(),
{
    if reports.len() > 0 {
        lemma_actions_len(start, name, reports.drop_last());
    }
}

proof fn lemma_prefix_step(start: SchedulerState, reports: Seq<FetchReport>, j: int)
    requires
        0 < j <= reports.len(),
    ensures
        state_after(start, reports.take(j)) == next_state(
            state_after(start, reports.take(j - 1)),
            reports[j - 1],
        ),
{
    assert(reports.take(j).drop_last() =~= reports.take(j - 1));
}

proof fn lemma_fired_stays(start: SchedulerState, reports: Seq<FetchReport>, i: int, j: int)
    requires
        0 <= i <= j <= reports.len(),
        state_after(start, reports.take(i)) == SchedulerState::Fired,
    ensures
        state_after(start, reports.take(j)) == SchedulerState::Fired,
    decreases j - i,
{
    if j > i {
        lemma_fired_stays(start, reports, i, j - 1);
        lemma_prefix_step(start, reports, j);
    }
}

proof fn lemma_active_until(reports: Seq<FetchReport>, k: int)
    requires
        0 <= k <= reports.len(),
        forall|j: int| 0 <= j < k ==> !reports_completion(#[trigger] reports[j]),
    ensures
        state_after(SchedulerState::Active, reports.take(k)) == SchedulerState::Active,
    decreases k,
{
    if k > 0 {
        lemma_active_until(reports, k - 1);
        lemma_prefix_step(SchedulerState::Active, reports, k);
    } else {
        assert(reports.take(0) =~= Seq::<FetchReport>::empty());
    }
}

/// While every poll reports a pending run, the watcher stays active and
/// never asks for a notification.
pub proof fn lemma_pending_never_notifies(name: String, reports: Seq<FetchReport>)
    requires
        forall|i: int| 0 <= i < reports.len() ==> #[trigger] reports[i] == Ok::<RunStatus, FetchError>(RunStatus::Pending),
    ensures
        state_after(SchedulerState::Active, reports) == SchedulerState::Active,
        actions_of(SchedulerState::Active, name, reports).len() == reports.len(),
        forall|i: int|
            0 <= i < reports.len() ==> #[trigger] actions_of(SchedulerState::Active, name, reports)[i]
                == TickAction::KeepWatching,
{
    lemma_actions_len(SchedulerState::Active, name, reports);
    lemma_active_until(reports, reports.len() as int);
    assert(reports.take(reports.len() as int) =~= reports);
    assert forall|i: int| 0 <= i < reports.len() implies #[trigger] actions_of(
        SchedulerState::Active,
        name,
        reports,
    )[i] == TickAction::KeepWatching by {
        lemma_action_at(SchedulerState::Active, name, reports, i);
        lemma_active_until(reports, i);
    }
}

/// The first poll that reports completion is the one tick that asks for a
/// notification, carrying the run's conclusion under the watched label;
/// every later tick is idle, whatever it would have reported.
pub proof fn lemma_first_completion_notifies_once(name: String, reports: Seq<FetchReport>, k: int)
    requires
        0 <= k < reports.len(),
        reports_completion(reports[k]),
        forall|j: int| 0 <= j < k ==> !reports_completion(#[trigger] reports[j]),
    ensures
        actions_of(SchedulerState::Active, name, reports).len() == reports.len(),
        actions_of(SchedulerState::Active, name, reports)[k] == TickAction::Notify(
            RunOutcome { step_name: name, step_status: reports[k]->Ok_0->conclusion },
        ),
        forall|j: int|
            0 <= j < reports.len() && j != k ==> !(#[trigger] actions_of(
                SchedulerState::Active,
                name,
                reports,
            )[j] is Notify),
        forall|j: int|
            k < j < reports.len() ==> #[trigger] actions_of(SchedulerState::Active, name, reports)[j]
                == TickAction::Idle,
        state_after(SchedulerState::Active, reports) == SchedulerState::Fired,
{
    let start = SchedulerState::Active;
    lemma_actions_len(start, name, reports);
    lemma_active_until(reports, k);
    lemma_action_at(start, name, reports, k);
    lemma_prefix_step(start, reports, k + 1);
    assert forall|j: int| 0 <= j < reports.len() && j != k implies !(#[trigger] actions_of(
        start,
        name,
        reports,
    )[j] is Notify) by {
        lemma_action_at(start, name, reports, j);
        if j < k {
            lemma_active_until(reports, j);
        } else {
            lemma_fired_stays(start, reports, k + 1, j);
        }
    }
    assert forall|j: int| k < j < reports.len() implies #[trigger] actions_of(
        start,
        name,
        reports,
    )[j] == TickAction::Idle by {
        lemma_action_at(start, name, reports, j);
        lemma_fired_stays(start, reports, k + 1, j);
    }
    lemma_fired_stays(start, reports, k + 1, reports.len() as int);
    assert(reports.take(reports.len() as int) =~= reports);
}

/// From any state, no two ticks of a run both ask for a notification.
pub proof fn lemma_at_most_one_notification(
    start: SchedulerState,
    name: String,
    reports: Seq<FetchReport>,
    i: int,
    j: int,
)
    requires
        0 <= i < j < reports.len(),
    ensures
        !(actions_of(start, name, reports)[i] is Notify && actions_of(start, name, reports)[j] is Notify),
{
    lemma_action_at(start, name, reports, i);
    lemma_action_at(start, name, reports, j);
    if actions_of(start, name, reports)[i] is Notify {
        lemma_prefix_step(start, reports, i + 1);
        lemma_fired_stays(start, reports, i + 1, j);
    }
}

/// A failed query leaves the state as it was and asks for no notification;
/// if the watcher was still active, a completion reported on a later tick
/// still yields the notification.
pub proof fn lemma_fetch_error_changes_nothing(
    start: SchedulerState,
    name: String,
    reports: Seq<FetchReport>,
    error: FetchError,
    conclusion: String,
)
    ensures
        state_after(start, reports.push(Err(error))) == state_after(start, reports),
        !(actions_of(start, name, reports.push(Err(error))).last() is Notify),
        state_after(start, reports) == SchedulerState::Active ==> actions_of(
            start,
            name,
            reports.push(Err(error)).push(Ok(RunStatus::Completed { conclusion })),
        ).last() == TickAction::Notify(RunOutcome { step_name: name, step_status: conclusion }),
{
    let failed = reports.push(Err(error));
    assert(failed.drop_last() =~= reports);
    let done = failed.push(Ok(RunStatus::Completed { conclusion }));
    assert(done.drop_last() =~= failed);
}

} // verus!
