use patch_runner::controller::join_output_dir;
use patch_runner::controller::Controller;
use patch_runner::outcome::Outcome;
use patch_runner::outcome::TaskFailure;
use patch_runner::runner::PollResult;

#[test]
fn new_controller_is_idle_and_blank() {
    let c = Controller::new();
    assert_eq!(c.status().as_str(), "");
    assert!(!c.is_running());
    assert!(!c.needs_repaint());
}

#[test]
fn trigger_hands_out_the_worker_inputs() {
    let mut c = Controller::new();
    let task = c.trigger("patches", "out").expect("idle controller must start a task");
    assert_eq!(task.input_dir.as_str(), "patches");
    assert_eq!(task.output_dir.as_str(), "out/aeco-patch");
    assert_eq!(c.status().as_str(), "Working...");
    assert!(c.is_running());
    assert!(c.needs_repaint());
}

#[test]
fn status_reaches_finished_on_success() {
    let mut c = Controller::new();
    assert_eq!(c.status().as_str(), "");
    let task = c.trigger("patches", "out").unwrap();
    assert_eq!(c.status().as_str(), "Working...");
    task.sender.send(Outcome::Success).unwrap();
    let r = c.tick();
    assert_eq!(r, PollResult::Finished(Outcome::Success));
    assert_eq!(c.status().as_str(), "Finished!");
    assert!(!c.is_running());
    assert_eq!(c.tick(), PollResult::NothingToReport);
}

#[test]
fn failure_status_contains_the_detail() {
    let mut c = Controller::new();
    let task = c.trigger("patches", "out").unwrap();
    task.sender
        .send(Outcome::Failure(TaskFailure::Operation("disk full".to_string())))
        .unwrap();
    let r = c.tick();
    assert_eq!(
        r,
        PollResult::Finished(Outcome::Failure(TaskFailure::Operation("disk full".to_string())))
    );
    assert!(c.status().contains("disk full"));
    assert_eq!(c.status().as_str(), "Failed to generate output: disk full");
    assert!(!c.is_running());
}

#[test]
fn second_trigger_is_rejected_while_running() {
    let mut c = Controller::new();
    let mut workers: usize = 0;
    let task = c.trigger("patches", "out").unwrap();
    workers += 1;
    if c.trigger("patches", "out").is_some() {
        workers += 1;
    }
    assert_eq!(workers, 1);
    assert_eq!(c.status().as_str(), "Generation already in progress.");
    assert!(c.is_running());
    task.sender.send(Outcome::Success).unwrap();
    assert_eq!(c.tick(), PollResult::Finished(Outcome::Success));
    assert!(c.trigger("patches", "out").is_some());
}

#[test]
fn poll_during_slow_operation_reports_still_running() {
    let mut c = Controller::new();
    let task = c.trigger("patches", "out").unwrap();
    // The worker has not sent anything yet: every tick returns at once,
    // reports "still running", and changes nothing.
    for _ in 0..5 {
        assert_eq!(c.tick(), PollResult::StillRunning);
        assert_eq!(c.status().as_str(), "Working...");
        assert!(c.is_running());
    }
    task.sender.send(Outcome::Success).unwrap();
    assert_eq!(c.tick(), PollResult::Finished(Outcome::Success));
}

#[test]
fn idle_polls_report_nothing_and_change_nothing() {
    let mut c = Controller::new();
    c.set_message("ready");
    c.repaint_done();
    for _ in 0..10 {
        assert_eq!(c.tick(), PollResult::NothingToReport);
        assert_eq!(c.status().as_str(), "ready");
        assert!(!c.is_running());
        assert!(!c.needs_repaint());
    }
}

#[test]
fn lost_worker_yields_a_synthesized_failure() {
    let mut c = Controller::new();
    let task = c.trigger("patches", "out").unwrap();
    // The worker vanishes without sending: the producer end is dropped.
    drop(task);
    let r = c.tick();
    assert_eq!(r, PollResult::Finished(Outcome::Failure(TaskFailure::WorkerLost)));
    assert_eq!(
        c.status().as_str(),
        "Failed to generate output: the background task stopped before reporting a result"
    );
    assert!(!c.is_running());
    // The machine is not wedged: a new task can start.
    assert!(c.trigger("patches", "out").is_some());
}

#[test]
fn set_message_updates_status_and_repaint() {
    let mut c = Controller::new();
    c.set_message("hello");
    assert_eq!(c.status().as_str(), "hello");
    assert!(c.needs_repaint());
    c.repaint_done();
    assert!(!c.needs_repaint());
    assert_eq!(c.status().as_str(), "hello");
}

#[test]
fn join_output_dir_appends_the_fixed_subdirectory() {
    assert_eq!(join_output_dir("").as_str(), "aeco-patch");
    assert_eq!(join_output_dir("out").as_str(), "out/aeco-patch");
    assert_eq!(join_output_dir("out/").as_str(), "out/aeco-patch");
    assert_eq!(join_output_dir("a/b").as_str(), "a/b/aeco-patch");
}
