//! The controller state machine.
//!
//! A [`Controller`] composes a [`TaskRunner`] with the status line the
//! presentation layer shows. A cooperative consumer loop drives it with two
//! events: a user *trigger*, which starts the operation when the runner is
//! idle, and a *tick*, which polls once without blocking and folds a
//! terminal outcome into the status. The abstract state is a
//! [`ControllerView`]; [`trigger_step`] and [`tick_step`] say exactly what
//! each event does to it.

use std::sync::mpsc::Sender;
use vstd::prelude::*;
use vstd::string::StrSliceExecFns;
use vstd::string::StringExecFns;

use crate::outcome::Outcome;
use crate::outcome::TaskFailure;
use crate::runner::PollResult;
use crate::runner::TaskRunner;

verus! {

/// The status line after a trigger was accepted.
pub open spec fn working_text() -> Seq<char> {
    "Working..."@
}

/// The status line after a successful task.
pub open spec fn finished_text() -> Seq<char> {
    "Finished!"@
}

/// The status line when a trigger arrives while a task is still running.
pub open spec fn already_running_text() -> Seq<char> {
    "Generation already in progress."@
}

/// The prefix of the status line after a failed task.
pub open spec fn failed_prefix() -> Seq<char> {
    "Failed to generate output: "@
}

/// The fixed subdirectory appended under the user's output folder before the
/// operation runs.
pub open spec fn output_subdir_text() -> Seq<char> {
    "aeco-patch"@
}

/// The status line a terminal outcome leaves behind: "Finished!" on success,
/// and the failure prefix followed by the failure's own detail otherwise —
/// so the detail always survives into what the user sees.
pub open spec fn outcome_text(o: Outcome) -> Seq<char> {
    match o {
        Outcome::Success => finished_text(),
        Outcome::Failure(f) => failed_prefix() + f.detail(),
    }
}

/// The abstract state of a [`Controller`]: whether a task is outstanding,
/// the characters of the status line, and whether the presentation has a
/// redraw pending.
pub struct ControllerView {
    pub running: bool,
    pub status: Seq<char>,
    pub repaint: bool,
}

/// What a user trigger does to the abstract state: an idle machine starts
/// running and shows [`working_text`]; a running machine stays exactly as it
/// is except that the status becomes [`already_running_text`]. Either way
/// the presentation is asked to redraw.
pub open spec fn trigger_step(s: ControllerView) -> ControllerView {
    if s.running {
        ControllerView { running: s.running, status: already_running_text(), repaint: true }
    } else {
        ControllerView { running: true, status: working_text(), repaint: true }
    }
}

/// What one tick does to the abstract state, given what the poll reported:
/// a terminal outcome frees the machine and leaves [`outcome_text`] behind;
/// anything else changes nothing at all.
pub open spec fn tick_step(s: ControllerView, r: PollResult) -> ControllerView {
    match r {
        PollResult::Finished(o) => ControllerView {
            running: false,
            status: outcome_text(o),
            repaint: true,
        },
        _ => s,
    }
}

/// The base output folder with [`output_subdir_text`] appended: the
/// subdirectory alone when the base is empty, and otherwise the base, a
/// separator unless the base already ends with one, and the subdirectory.
pub open spec fn joined_output_dir(base: Seq<char>) -> Seq<char> {
    if base.len() == 0 {
        output_subdir_text()
    } else if base.last() == '/' {
        base + output_subdir_text()
    } else {
        base + "/"@ + output_subdir_text()
    }
}

/// Appends the fixed output subdirectory to the user's base output folder,
/// exactly as [`joined_output_dir`] says.
pub fn join_output_dir(base: &str) -> (r: String)
    ensures
        r@ == joined_output_dir(base@),
{
    if base.is_empty() {
        "aeco-patch".to_owned()
    } else {
        let n: usize = base.unicode_len();
        let last: char = base.get_char(n - 1);
        let mut r = base.to_owned();
        if last != '/' {
            r.append("/");
        }
        r.append("aeco-patch");
        r
    }
}

/// Everything the caller needs to launch the background worker of a task
/// that [`Controller::trigger`] accepted: the producer end of the task's
/// result channel and the operation's two inputs, owned outright so the
/// worker shares nothing with the caller.
pub struct WorkerTask {
    /// The producer end the worker reports its one outcome on.
    pub sender: Sender<Outcome>,
    /// The folder the operation reads from.
    pub input_dir: String,
    /// The folder the operation writes to, subdirectory included.
    pub output_dir: String,
}

/// The controller: a [`TaskRunner`] plus the status line and redraw flag the
/// presentation layer reads.
pub struct Controller {
    runner: TaskRunner,
    state_message: String,
    needs_repaint: bool,
}

impl View for Controller {
    type V = ControllerView;

    closed spec fn view(&self) -> ControllerView {
        ControllerView {
            running: self.runner.running(),
            status: self.state_message@,
            repaint: self.needs_repaint,
        }
    }
}

impl Controller {
    /// An idle controller with a blank status and no redraw pending.
    pub fn new() -> (r: Controller)
        ensures
            !r@.running,
            r@.status == Seq::<char>::empty(),
            !r@.repaint,
    {
        Controller {
            runner: TaskRunner::new(),
            state_message: String::new(),
            needs_repaint: false,
        }
    }

    /// Sets the status line shown to the user and marks the presentation for
    /// a redraw; the runner is untouched.
    pub fn set_message(&mut self, message: &str)
        ensures
            final(self)@.status == message@,
            final(self)@.repaint,
            final(self)@.running == old(self)@.running,
    {
        self.state_message = message.to_owned();
        self.needs_repaint = true;
    }

    /// The status line, read-only to the presentation layer.
    pub fn status(&self) -> (r: &String)
        ensures
            r@ == self@.status,
    {
        &self.state_message
    }

    /// Whether a task is outstanding — the presentation may use this to tell
    /// whether a trigger would currently be accepted.
    pub fn is_running(&self) -> (r: bool)
        ensures
            r == self@.running,
    {
        self.runner.is_running()
    }

    /// Whether the presentation should redraw the status line.
    pub fn needs_repaint(&self) -> (r: bool)
        ensures
            r == self@.repaint,
    {
        self.needs_repaint
    }

    /// Acknowledges the redraw; everything else stays as it was.
    pub fn repaint_done(&mut self)
        ensures
            !final(self)@.repaint,
            final(self)@.running == old(self)@.running,
            final(self)@.status == old(self)@.status,
    {
        self.needs_repaint = false;
    }

    /// One user trigger, with the operation's two inputs: the folder to read
    /// from and the base output folder. When the runner is idle the status
    /// becomes "Working...", the runner starts a task, and everything the
    /// background worker needs is returned — the inputs deep-copied, the
    /// output folder extended by the fixed subdirectory. When a task is
    /// already running nothing is started and the status says so. So a
    /// worker is handed out if and only if the controller was idle, and the
    /// abstract state moves exactly by [`trigger_step`].
    pub fn trigger(&mut self, input_dir: &str, output_base: &str) -> (task: Option<WorkerTask>)
        ensures
            final(self)@ == trigger_step(old(self)@),
            task is Some <==> !old(self)@.running,
            task matches Some(t) ==> t.input_dir@ == input_dir@ && t.output_dir@
                == joined_output_dir(output_base@),
    {
        if self.runner.is_running() {
            self.set_message("Generation already in progress.");
            None
        } else {
            self.set_message("Working...");
            let producer = self.runner.start();
            let sender = producer.unwrap();
            Some(
                WorkerTask {
                    sender,
                    input_dir: input_dir.to_owned(),
                    output_dir: join_output_dir(output_base),
                },
            )
        }
    }

    /// One tick of the consumer loop: polls the runner once, without
    /// blocking, and reports what the poll said. A terminal outcome is
    /// folded into the status line — "Finished!" or the failure's detail —
    /// and frees the machine; any other report leaves the controller
    /// untouched. The abstract state moves exactly by [`tick_step`], nothing
    /// is reported when and only when the controller was idle, and the
    /// machine keeps running only on a "still running" report.
    pub fn tick(&mut self) -> (r: PollResult)
        ensures
            final(self)@ == tick_step(old(self)@, r),
            r == PollResult::NothingToReport <==> !old(self)@.running,
            final(self)@.running <==> r == PollResult::StillRunning,
            r matches PollResult::Finished(_) ==> old(self)@.running,
            !(r matches PollResult::Finished(_)) ==> *final(self) == *old(self),
    {
        let r = self.runner.poll();
        match &r {
            PollResult::Finished(o) => match o {
                Outcome::Success => self.set_message("Finished!"),
                Outcome::Failure(f) => {
                    let message = failure_message(f);
                    self.set_message(message.as_str());
                },
            },
            _ => {},
        }
        r
    }
}

/// Renders the status line for a failed task: the failure prefix followed by
/// the failure's own detail, with the detail intact.
pub fn failure_message(f: &TaskFailure) -> (r: String)
    ensures
        r@ == failed_prefix() + f.detail(),
{
    let mut r = "Failed to generate output: ".to_owned();
    let detail = f.detail_string();
    r.append(detail.as_str());
    r
}

} // verus!
