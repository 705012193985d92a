use run_watch::outcome::RunOutcome;
use run_watch::request::{authorization_value, status_url, StatusRequest, WatchTarget};
use run_watch::scheduler::{PollScheduler, SchedulerState, TickAction};
use run_watch::status::{parse_run_status, FetchError, RunStatus};

fn s(text: &str) -> String {
    text.to_string()
}

fn completed(conclusion: &str) -> RunStatus {
    RunStatus::Completed { conclusion: s(conclusion) }
}

fn scheduler_for(run_id: &str, name: &str) -> PollScheduler {
    PollScheduler::new(WatchTarget::new(s(run_id), s(name), s("SECRET-REDACTED")))
}

#[test]
fn parse_completed_with_conclusion() {
    let r = parse_run_status(Some(s("completed")), Some(s("success")));
    assert_eq!(r, Ok(completed("success")));
}

#[test]
fn parse_completed_without_conclusion_is_malformed() {
    let r = parse_run_status(Some(s("completed")), None);
    assert_eq!(r, Err(FetchError::MalformedResponse));
}

#[test]
fn parse_missing_status_is_malformed() {
    assert_eq!(parse_run_status(None, None), Err(FetchError::MalformedResponse));
    assert_eq!(parse_run_status(None, Some(s("success"))), Err(FetchError::MalformedResponse));
}

#[test]
fn parse_other_status_is_pending() {
    assert_eq!(parse_run_status(Some(s("pending")), None), Ok(RunStatus::Pending));
    assert_eq!(parse_run_status(Some(s("in_progress")), None), Ok(RunStatus::Pending));
    assert_eq!(parse_run_status(Some(s("queued")), Some(s("stale"))), Ok(RunStatus::Pending));
    assert_eq!(parse_run_status(Some(s("Completed")), Some(s("success"))), Ok(RunStatus::Pending));
}

#[test]
fn is_completed_matches_variant() {
    assert!(completed("success").is_completed());
    assert!(!RunStatus::Pending.is_completed());
}

#[test]
fn request_values() {
    assert_eq!(status_url("42"), "https://api.github.com/repos/rancher/rancher/actions/runs/42");
    assert_eq!(authorization_value("abc"), "token abc");
    let target = WatchTarget::new(s("7"), s("build"), s("xyz"));
    let req = StatusRequest::for_target(&target);
    assert_eq!(req.url, "https://api.github.com/repos/rancher/rancher/actions/runs/7");
    assert_eq!(req.user_agent, "Actions-Reader/0.0.1 beta testing");
    assert_eq!(req.accept, "application/vnd.github+json");
    assert_eq!(req.authorization, "token xyz");
}

#[test]
fn outcome_from_completed_status() {
    let o = RunOutcome::from_status(s("build"), completed("success"));
    assert_eq!(o, RunOutcome { step_name: s("build"), step_status: s("success") });
}

#[test]
fn new_scheduler_is_active_and_keeps_target() {
    let sched = scheduler_for("42", "build");
    assert_eq!(sched.state(), SchedulerState::Active);
    assert!(!sched.is_fired());
    assert_eq!(sched.target().run_id, "42");
    assert_eq!(sched.target().display_name, "build");
    assert_eq!(sched.target().credential, "SECRET-REDACTED");
}

#[test]
fn pending_ticks_never_notify() {
    let mut sched = scheduler_for("42", "build");
    for _ in 0..20 {
        assert_eq!(sched.tick(Ok(RunStatus::Pending)), TickAction::KeepWatching);
        assert_eq!(sched.state(), SchedulerState::Active);
    }
    assert!(sched.status_request().is_some());
}

#[test]
fn first_completion_is_the_only_notification() {
    let mut sched = scheduler_for("42", "build");
    assert_eq!(sched.tick(Ok(RunStatus::Pending)), TickAction::KeepWatching);
    let first = sched.tick(Ok(completed("success")));
    assert_eq!(
        first,
        TickAction::Notify(RunOutcome { step_name: s("build"), step_status: s("success") })
    );
    assert!(sched.is_fired());
    assert_eq!(sched.tick(Ok(completed("failure"))), TickAction::Idle);
    assert_eq!(sched.tick(Ok(RunStatus::Pending)), TickAction::Idle);
    assert_eq!(sched.tick(Err(FetchError::Transport)), TickAction::Idle);
    assert_eq!(sched.state(), SchedulerState::Fired);
    assert_eq!(sched.status_request(), None);
}

#[test]
fn fetch_error_changes_nothing_and_later_completion_fires() {
    let mut sched = scheduler_for("42", "build");
    assert_eq!(
        sched.tick(Err(FetchError::Transport)),
        TickAction::FetchFailed(FetchError::Transport)
    );
    assert_eq!(sched.state(), SchedulerState::Active);
    assert_eq!(
        sched.tick(Err(FetchError::MalformedResponse)),
        TickAction::FetchFailed(FetchError::MalformedResponse)
    );
    assert_eq!(sched.state(), SchedulerState::Active);
    assert_eq!(
        sched.tick(Ok(completed("cancelled"))),
        TickAction::Notify(RunOutcome { step_name: s("build"), step_status: s("cancelled") })
    );
    assert!(sched.is_fired());
}

#[test]
fn outcome_carries_the_conclusion() {
    let mut sched = scheduler_for("1", "deploy");
    let report = parse_run_status(Some(s("completed")), Some(s("success")));
    match sched.tick(report) {
        TickAction::Notify(o) => {
            assert_eq!(o.step_name, "deploy");
            assert_eq!(o.step_status, "success");
        }
        other => panic!("expected a notification, got {:?}", other),
    }
}

#[test]
fn end_to_end_three_polls_one_notification() {
    let stub: Vec<(Option<String>, Option<String>)> = vec![
        (Some(s("pending")), None),
        (Some(s("pending")), None),
        (Some(s("completed")), Some(s("failure"))),
        (Some(s("completed")), Some(s("success"))),
    ];
    let mut sched = scheduler_for("42", "build");
    let mut fetches: usize = 0;
    let mut delivered: Vec<RunOutcome> = Vec::new();
    for _ in 0..10 {
        let req = match sched.status_request() {
            Some(req) => req,
            None => continue,
        };
        assert!(req.url.ends_with("/42"));
        let (status, conclusion) = stub[fetches].clone();
        fetches += 1;
        if let TickAction::Notify(o) = sched.tick(parse_run_status(status, conclusion)) {
            delivered.push(o);
        }
    }
    assert_eq!(fetches, 3);
    assert_eq!(
        delivered,
        vec![RunOutcome { step_name: s("build"), step_status: s("failure") }]
    );
}
