//! What every producer has in common: the signals its event source gives
//! and the actions it answers them with.

use vstd::prelude::*;
use crate::record::{record_of, BongoEvent, EventType, Record};

verus! {

/// What one wait on an event source gave.
#[derive(Debug)]
pub enum Signal<T> {
    /// The source delivered a raw event.
    Event(T),
    /// The source reported an error.
    Failed,
    /// The source ended without an error.
    Closed,
}

/// What a producer does in answer to a signal.
#[derive(Debug)]
pub enum ProducerAction {
    /// Put this record on the channel, then wait for the next signal.
    Send(BongoEvent),
    /// Put nothing on the channel, and wait for the next signal.
    Idle,
    /// Report the error on the error stream and stop this producer; the
    /// other producers go on.
    Fail,
    /// Stop this producer quietly.
    Finish,
}

/// A producer's action, as plain mathematical values.
pub enum Step {
    Send(Record),
    Idle,
    Fail,
    Finish,
}

impl View for ProducerAction {
    type V = Step;

    open spec fn view(&self) -> Step {
        match self {
            ProducerAction::Send(event) => Step::Send(event@),
            ProducerAction::Idle => Step::Idle,
            ProducerAction::Fail => Step::Fail,
            ProducerAction::Finish => Step::Finish,
        }
    }
}

/// The step that passes a record on when there is one and idles when there
/// is none.
pub open spec fn emission(record: Option<Record>) -> Step {
    match record {
        Some(r) => Step::Send(r),
        None => Step::Idle,
    }
}

/// The step sends a record of the given kind under a key that is not
/// empty.
pub open spec fn sends(step: Step, event_type: EventType) -> bool {
    step matches Step::Send(record) && record.event_type == event_type && record.key.len() > 0
}

/// Turns the outcome of normalizing one raw event into an action.
pub fn emit(event: Option<BongoEvent>) -> (action: ProducerAction)
    ensures
        action@ == emission(record_of(event)),
{
    match event {
        Some(e) => ProducerAction::Send(e),
        None => ProducerAction::Idle,
    }
}

} // verus!
