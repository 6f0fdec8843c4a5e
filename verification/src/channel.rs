//! The one-shot result channel.
//!
//! It moves exactly one [`Outcome`] from the background worker to the polling
//! consumer without blocking either side, and lets the consumer tell "no
//! value yet" apart from "producer gone". The ends are
//! `std::sync::mpsc` halves; each task gets a fresh pair, used once and then
//! discarded.

use std::sync::mpsc::Receiver;
use std::sync::mpsc::Sender;
use vstd::prelude::*;

use crate::outcome::Outcome;
use crate::outcome::outcome_of_result;

verus! {

/// `std::sync::mpsc::Sender`, declared so the producer end of a result
/// channel can appear in signatures and fields. Opaque: values only pass
/// through.
#[verifier::external_type_specification]
#[verifier::external_body]
#[verifier::reject_recursive_types(T)]
pub struct ExSender<T>(Sender<T>);

/// `std::sync::mpsc::Receiver`, declared so a task handle can hold the
/// consumer end of its result channel. Opaque: values only pass through.
#[verifier::external_type_specification]
#[verifier::external_body]
#[verifier::reject_recursive_types(T)]
pub struct ExReceiver<T>(Receiver<T>);

/// What one non-blocking probe of the consumer end observed.
#[derive(Debug, PartialEq, Eq)]
pub enum TryReceive {
    /// The worker's outcome has arrived.
    Ready(Outcome),
    /// The channel is open but nothing has been sent yet.
    Pending,
    /// The producer end was dropped without sending a value.
    Disconnected,
}

/// Relies on `std::sync::mpsc::channel`: returns the connected producer and
/// consumer ends of a fresh asynchronous channel.
#[verifier::external_body]
pub(crate) fn new_channel() -> (Sender<Outcome>, Receiver<Outcome>) {
    std::sync::mpsc::channel()
}

/// Relies on `std::sync::mpsc::Receiver::try_recv`: a non-blocking receive
/// that returns a value if one is waiting, and otherwise tells an empty but
/// open channel (`Empty`) apart from one whose sender is gone
/// (`Disconnected`). What comes back depends on the worker's progress, so
/// nothing is promised about which variant it is.
#[verifier::external_body]
pub(crate) fn try_receive(rx: &Receiver<Outcome>) -> TryReceive {
    match rx.try_recv() {
        Ok(outcome) => TryReceive::Ready(outcome),
        Err(std::sync::mpsc::TryRecvError::Empty) => TryReceive::Pending,
        Err(std::sync::mpsc::TryRecvError::Disconnected) => TryReceive::Disconnected,
    }
}

/// Relies on `std::sync::mpsc::Sender::send`: never blocks, and fails (rather
/// than panicking) exactly when the receiving end has been dropped. Whether
/// the receiver is still alive depends on the other side, so nothing is
/// promised about the report.
#[verifier::external_body]
pub(crate) fn send_outcome(tx: &Sender<Outcome>, outcome: Outcome) -> bool {
    match tx.send(outcome) {
        Ok(()) => true,
        Err(_) => false,
    }
}

/// The producer side of the handoff: maps the operation's result to its
/// [`Outcome`] — [`crate::outcome::outcome_of`] says which — and attempts to deliver it on
/// the channel. The report is `true` when the outcome was handed over and
/// `false` when the consumer end was already gone; delivery can only be
/// observed from the consumer end, so the report itself carries no promise.
pub fn deliver_result(tx: &Sender<Outcome>, r: Result<(), String>) -> bool {
    send_outcome(tx, outcome_of_result(r))
}

} // verus!
