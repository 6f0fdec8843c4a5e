//! The properties the design promises, stated and proved over the abstract
//! state machine: the event model [`ui_step`] / [`run_ui`] and the poll
//! model [`settled`] that the executable code is specified against.

use vstd::prelude::*;

use crate::channel::TryReceive;
use crate::controller::ControllerView;
use crate::controller::already_running_text;
use crate::controller::failed_prefix;
use crate::controller::finished_text;
use crate::controller::tick_step;
use crate::controller::trigger_step;
use crate::controller::working_text;
use crate::outcome::Outcome;
use crate::outcome::TaskFailure;
use crate::outcome::outcome_of;
use crate::runner::PollResult;
use crate::runner::settled;

verus! {

/// One event of the consumer loop, as the controller sees it: a user
/// trigger, or a tick together with what its poll reported.
pub enum UiEvent {
    Trigger,
    Tick(PollResult),
}

/// What one event does to the abstract controller state.
pub open spec fn ui_step(s: ControllerView, e: UiEvent) -> ControllerView {
    match e {
        UiEvent::Trigger => trigger_step(s),
        UiEvent::Tick(r) => tick_step(s, r),
    }
}

/// Whether this event makes the controller hand out a new background
/// worker: only a trigger on an idle machine does.
pub open spec fn launches_worker(s: ControllerView, e: UiEvent) -> bool {
    e is Trigger && !s.running
}

/// Whether this event is a tick whose poll observed a terminal outcome.
pub open spec fn is_terminal(e: UiEvent) -> bool {
    e matches UiEvent::Tick(PollResult::Finished(_))
}

/// The abstract state after a whole sequence of consumer-loop events.
pub open spec fn run_ui(s: ControllerView, es: Seq<UiEvent>) -> ControllerView
    decreases es.len(),
{
    if es.len() == 0 {
        s
    } else {
        run_ui(ui_step(s, es[0]), es.drop_first())
    }
}

proof fn lemma_run_ui_prefix(s: ControllerView, es: Seq<UiEvent>, i: int)
    requires
        1 <= i <= es.len(),
    ensures
        run_ui(s, es.take(i)) == run_ui(ui_step(s, es[0]), es.drop_first().take(i - 1)),
{
    let t = es.take(i);
    assert(t[0] == es[0]);
    assert(t.drop_first() =~= es.drop_first().take(i - 1));
}

/// Single flight: while a task is running, no sequence of further events
/// that sees no terminal outcome can make the controller hand out a second
/// worker — the machine stays running through every prefix, and no event of
/// the sequence launches anything.
pub proof fn lemma_single_flight(s: ControllerView, es: Seq<UiEvent>)
    requires
        s.running,
        forall|i: int| 0 <= i < es.len() ==> !is_terminal(#[trigger] es[i]),
    ensures
        forall|i: int| 0 <= i <= es.len() ==> (#[trigger] run_ui(s, es.take(i))).running,
        forall|i: int|
            0 <= i < es.len() ==> !launches_worker(run_ui(s, es.take(i)), #[trigger] es[i]),
    decreases es.len(),
{
    assert(es.take(0) =~= Seq::<UiEvent>::empty());
    if es.len() == 0 {
        assert forall|i: int| 0 <= i <= es.len() implies (#[trigger] run_ui(
            s,
            es.take(i),
        )).running by {
            assert(run_ui(s, es.take(0)) == s);
        }
    } else {
        let s1 = ui_step(s, es[0]);
        assert(!is_terminal(es[0]));
        assert(s1.running);
        let tail = es.drop_first();
        assert forall|i: int| 0 <= i < tail.len() implies !is_terminal(#[trigger] tail[i]) by {
            assert(tail[i] == es[i + 1]);
        }
        lemma_single_flight(s1, tail);
        assert forall|i: int| 0 <= i <= es.len() implies (#[trigger] run_ui(
            s,
            es.take(i),
        )).running by {
            if i == 0 {
                assert(run_ui(s, es.take(0)) == s);
            } else {
                lemma_run_ui_prefix(s, es, i);
                assert(run_ui(s1, tail.take(i - 1)).running);
            }
        }
        assert forall|i: int| 0 <= i < es.len() implies !launches_worker(
            run_ui(s, es.take(i)),
            #[trigger] es[i],
        ) by {
            assert(run_ui(s, es.take(i)).running);
        }
    }
}

/// Eventual termination: the moment the worker has finished or vanished the
/// channel probe can no longer be `Pending`, so the very next poll of a
/// running task settles to a terminal outcome, and the tick that observes
/// it frees the machine — no started task leaves it running forever, and a
/// fresh trigger is accepted again afterwards.
pub proof fn lemma_eventual_termination(s: ControllerView, probe: TryReceive)
    requires
        s.running,
        !(probe is Pending),
    ensures
        settled(probe) matches PollResult::Finished(_),
        !tick_step(s, settled(probe)).running,
        launches_worker(tick_step(s, settled(probe)), UiEvent::Trigger),
{
}

/// Outcome fidelity: the outcome delivered for the operation's own result is
/// that result, unchanged — poll hands it over as is, success ends in the
/// "Finished!" status, and a failure's detail text arrives intact inside the
/// final status line.
pub proof fn lemma_outcome_fidelity(s: ControllerView, r: Result<(), String>)
    requires
        s.running,
    ensures
        settled(TryReceive::Ready(outcome_of(r))) == PollResult::Finished(outcome_of(r)),
        r is Ok ==> tick_step(s, PollResult::Finished(outcome_of(r))).status == finished_text(),
        r matches Err(d) ==> tick_step(s, PollResult::Finished(outcome_of(r))).status
            == failed_prefix() + d@,
{
}

/// A poll that finds no outcome yet neither waits nor disturbs anything: it
/// settles to "still running" and the tick that observes it is a no-op on
/// the state.
pub proof fn lemma_poll_while_pending(s: ControllerView)
    requires
        s.running,
    ensures
        settled(TryReceive::Pending) == PollResult::StillRunning,
        tick_step(s, PollResult::StillRunning) == s,
{
}

/// Whether a status line is one of the terminal, human-readable states the
/// user can be shown between ticks: blank, working, a rejected trigger, a
/// finished task, or a failure with its detail.
pub open spec fn displayable_status(status: Seq<char>) -> bool {
    ||| status == Seq::<char>::empty()
    ||| status == working_text()
    ||| status == already_running_text()
    ||| status == finished_text()
    ||| exists|f: TaskFailure| status == failed_prefix() + f.detail()
}

/// The status line is the sole feedback channel, and it is never left in a
/// half-written state: every consumer-loop event takes a displayable status
/// to a displayable status.
pub proof fn lemma_status_stays_displayable(s: ControllerView, e: UiEvent)
    requires
        displayable_status(s.status),
    ensures
        displayable_status(ui_step(s, e).status),
{
    match e {
        UiEvent::Tick(PollResult::Finished(Outcome::Failure(f))) => {
            assert(ui_step(s, e).status == failed_prefix() + f.detail());
        },
        _ => {},
    }
}

/// Idle polling is idempotent: any run of ticks that report nothing leaves
/// the controller exactly as it was.
pub proof fn lemma_idle_poll_idempotent(s: ControllerView, es: Seq<UiEvent>)
    requires
        !s.running,
        forall|i: int|
            0 <= i < es.len() ==> #[trigger] es[i] == UiEvent::Tick(PollResult::NothingToReport),
    ensures
        run_ui(s, es) == s,
    decreases es.len(),
{
    if es.len() > 0 {
        assert(es[0] == UiEvent::Tick(PollResult::NothingToReport));
        let tail = es.drop_first();
        assert forall|i: int| 0 <= i < tail.len() implies #[trigger] tail[i] == UiEvent::Tick(
            PollResult::NothingToReport,
        ) by {
            assert(tail[i] == es[i + 1]);
        }
        lemma_idle_poll_idempotent(s, tail);
    }
}

} // verus!
