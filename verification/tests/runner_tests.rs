use patch_runner::channel::deliver_result;
use patch_runner::channel::TryReceive;
use patch_runner::controller::failure_message;
use patch_runner::controller::Controller;
use patch_runner::outcome::outcome_of_result;
use patch_runner::outcome::Outcome;
use patch_runner::outcome::TaskFailure;
use patch_runner::runner::settle;
use patch_runner::runner::PollResult;
use patch_runner::runner::TaskRunner;

#[test]
fn runner_enforces_single_flight() {
    let mut r = TaskRunner::new();
    assert!(!r.is_running());
    let first = r.start();
    assert!(first.is_some());
    assert!(r.is_running());
    // A second start while running hands out nothing.
    assert!(r.start().is_none());
    assert!(r.is_running());
}

#[test]
fn runner_poll_walks_one_task_through_its_life() {
    let mut r = TaskRunner::new();
    assert_eq!(r.poll(), PollResult::NothingToReport);
    let tx = r.start().unwrap();
    assert_eq!(r.poll(), PollResult::StillRunning);
    tx.send(Outcome::Success).unwrap();
    assert_eq!(r.poll(), PollResult::Finished(Outcome::Success));
    // The outcome was drained: the runner is idle again.
    assert!(!r.is_running());
    assert_eq!(r.poll(), PollResult::NothingToReport);
}

#[test]
fn runner_recovers_from_a_vanished_worker() {
    let mut r = TaskRunner::new();
    let tx = r.start().unwrap();
    drop(tx);
    assert_eq!(
        r.poll(),
        PollResult::Finished(Outcome::Failure(TaskFailure::WorkerLost))
    );
    assert!(!r.is_running());
}

#[test]
fn settle_decides_each_channel_observation() {
    assert_eq!(
        settle(TryReceive::Ready(Outcome::Success)),
        PollResult::Finished(Outcome::Success)
    );
    let failed = Outcome::Failure(TaskFailure::Operation("boom".to_string()));
    assert_eq!(
        settle(TryReceive::Ready(failed)),
        PollResult::Finished(Outcome::Failure(TaskFailure::Operation("boom".to_string())))
    );
    assert_eq!(settle(TryReceive::Pending), PollResult::StillRunning);
    assert_eq!(
        settle(TryReceive::Disconnected),
        PollResult::Finished(Outcome::Failure(TaskFailure::WorkerLost))
    );
}

#[test]
fn outcome_mapping_preserves_the_result() {
    assert_eq!(outcome_of_result(Ok(())), Outcome::Success);
    assert_eq!(
        outcome_of_result(Err("disk full".to_string())),
        Outcome::Failure(TaskFailure::Operation("disk full".to_string()))
    );
}

#[test]
fn delivery_reaches_a_live_consumer() {
    let mut c = Controller::new();
    let task = c.trigger("patches", "out").unwrap();
    assert!(deliver_result(&task.sender, Err("no space".to_string())));
    let r = c.tick();
    assert_eq!(
        r,
        PollResult::Finished(Outcome::Failure(TaskFailure::Operation("no space".to_string())))
    );
}

#[test]
fn delivery_reports_a_consumer_that_is_gone() {
    let mut c = Controller::new();
    let task = c.trigger("patches", "out").unwrap();
    drop(c);
    assert!(!deliver_result(&task.sender, Ok(())));
}

#[test]
fn failure_message_keeps_the_detail_intact() {
    let m = failure_message(&TaskFailure::Operation("disk full".to_string()));
    assert_eq!(m.as_str(), "Failed to generate output: disk full");
    let lost = failure_message(&TaskFailure::WorkerLost);
    assert_eq!(
        lost.as_str(),
        "Failed to generate output: the background task stopped before reporting a result"
    );
}
