//! The single-flight task runner.
//!
//! A [`TaskRunner`] owns the lifecycle of at most one background task: the
//! task handle is the consumer end of that task's result channel, present
//! exactly while a started task has not yet been drained. `start` refuses to
//! overlap tasks, and `poll` is a non-blocking check that frees the handle
//! the moment a terminal outcome is available — even when the worker
//! vanished without sending one.

use std::sync::mpsc::Receiver;
use std::sync::mpsc::Sender;
use vstd::prelude::*;

use crate::channel::TryReceive;
use crate::channel::new_channel;
use crate::channel::try_receive;
use crate::outcome::Outcome;
use crate::outcome::TaskFailure;

verus! {

/// What one call of [`TaskRunner::poll`] reports to the caller.
#[derive(Debug, PartialEq, Eq)]
pub enum PollResult {
    /// No task is outstanding; there is nothing to wait for.
    NothingToReport,
    /// A task is outstanding and has not produced its outcome yet.
    StillRunning,
    /// The outstanding task ended; this is its one terminal outcome.
    Finished(Outcome),
}

/// Enforces single-flight execution and hands outcomes over through a
/// non-blocking poll.
pub struct TaskRunner {
    worker_rx: Option<Receiver<Outcome>>,
}

/// What a poll of a *running* task reports for each possible observation of
/// the channel: an arrived outcome is handed over as is; an open but empty
/// channel means the task is still running; a producer that vanished without
/// sending is turned into a synthesized failure, so no started task can
/// leave the caller stuck waiting forever.
pub open spec fn settled(probe: TryReceive) -> PollResult {
    match probe {
        TryReceive::Ready(o) => PollResult::Finished(o),
        TryReceive::Pending => PollResult::StillRunning,
        TryReceive::Disconnected => PollResult::Finished(
            Outcome::Failure(TaskFailure::WorkerLost),
        ),
    }
}

/// Decides what a poll of a running task reports, given what the probe of
/// the channel observed. Verified for every possible observation — this is
/// where the poll logic lives, independent of the channel itself.
pub fn settle(probe: TryReceive) -> (r: PollResult)
    ensures
        r == settled(probe),
{
    match probe {
        TryReceive::Ready(o) => PollResult::Finished(o),
        TryReceive::Pending => PollResult::StillRunning,
        TryReceive::Disconnected => PollResult::Finished(
            Outcome::Failure(TaskFailure::WorkerLost),
        ),
    }
}

impl TaskRunner {
    /// Whether a started task is outstanding: its handle exists and its
    /// outcome has not been drained yet.
    pub closed spec fn running(&self) -> bool {
        self.worker_rx is Some
    }

    /// A runner with no outstanding task.
    pub fn new() -> (r: TaskRunner)
        ensures
            !r.running(),
    {
        TaskRunner { worker_rx: None }
    }

    /// Whether a started task is outstanding.
    pub fn is_running(&self) -> (r: bool)
        ensures
            r == self.running(),
    {
        self.worker_rx.is_some()
    }

    /// Tries to start a task. While one is already outstanding this is a
    /// silent no-op that starts nothing and changes nothing. Otherwise a
    /// fresh result channel is created: the consumer end becomes the new
    /// task handle, and the producer end is returned for the background
    /// worker to report on — so a worker is handed out if and only if the
    /// runner was idle.
    pub fn start(&mut self) -> (producer: Option<Sender<Outcome>>)
        ensures
            final(self).running(),
            producer is Some <==> !old(self).running(),
            old(self).running() ==> *final(self) == *old(self),
    {
        if self.worker_rx.is_some() {
            return None;
        }
        let (tx, rx) = new_channel();
        self.worker_rx = Some(rx);
        Some(tx)
    }

    /// A non-blocking check on the outstanding task, safe to call on every
    /// iteration of a consumer loop. With no task outstanding it reports
    /// `NothingToReport` and changes nothing. With one outstanding it probes
    /// the channel once and reports what [`settled`] says for that
    /// observation; the handle is dropped exactly when the report is
    /// terminal, so `Finished` is returned once per started task and the
    /// runner is idle again afterwards.
    pub fn poll(&mut self) -> (r: PollResult)
        ensures
            r == PollResult::NothingToReport <==> !old(self).running(),
            final(self).running() <==> r == PollResult::StillRunning,
            r matches PollResult::Finished(_) <==> old(self).running() && !final(self).running(),
            !(r matches PollResult::Finished(_)) ==> *final(self) == *old(self),
    {
        let rx = match self.worker_rx.take() {
            None => {
                return PollResult::NothingToReport;
            },
            Some(rx) => rx,
        };
        match try_receive(&rx) {
            TryReceive::Pending => {
                self.worker_rx = Some(rx);
                PollResult::StillRunning
            },
            probe => settle(probe),
        }
    }
}

} // verus!
