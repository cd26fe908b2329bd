//! The consumer: the one loop that takes records off the channel and turns
//! each into a line of output.

use vstd::prelude::*;
use crate::json::{lemma_line_is_single, line_of, render_line, single_line};
use crate::record::{record_of, records_of, BongoEvent, Record};

verus! {

/// What the consumer does after one wait on the channel.
#[derive(Debug)]
pub enum DispatchAction {
    /// Write this line and a line feed to standard output, flush, then wait
    /// for the next record.
    Emit(String),
    /// Write nothing, and wait for the next record.
    Skip,
    /// Every producer is gone and the channel is empty: leave the loop.
    Stop,
}

/// A consumer's action, as plain mathematical values.
pub enum Outcome {
    Emit(Seq<char>),
    Skip,
    Stop,
}

impl View for DispatchAction {
    type V = Outcome;

    open spec fn view(&self) -> Outcome {
        match self {
            DispatchAction::Emit(line) => Outcome::Emit(line@),
            DispatchAction::Skip => Outcome::Skip,
            DispatchAction::Stop => Outcome::Stop,
        }
    }
}

/// What the consumer does with what the encoder made of a record: a line is
/// written; a record for which the encoder gave none is dropped, and the
/// loop goes on to the next record either way.
pub fn dispatch_line(rendered: Option<String>) -> (action: DispatchAction)
    ensures
        action@ == match rendered {
            Some(line) => Outcome::Emit(line@),
            None => Outcome::Skip,
        },
{
    match rendered {
        Some(line) => DispatchAction::Emit(line),
        None => DispatchAction::Skip,
    }
}

/// What the consumer does for what the channel gave: a record, or the news
/// that the channel is closed.
pub open spec fn dispatch_of(received: Option<Record>) -> Outcome {
    match received {
        Some(record) => Outcome::Emit(line_of(record)),
        None => Outcome::Stop,
    }
}

/// Decides what the consumer does after one wait on the channel. A record
/// becomes exactly one line, which holds no line feed of its own; only a
/// closed channel ends the loop.
pub fn dispatch_step(received: Option<BongoEvent>) -> (action: DispatchAction)
    ensures
        action@ == dispatch_of(record_of(received)),
        action matches DispatchAction::Emit(line) ==> single_line(line@),
{
    match received {
        Some(event) => dispatch_line(render_line(&event)),
        None => DispatchAction::Stop,
    }
}

/// The lines that a run of records gives: the line of each record, in the
/// order of the records.
pub open spec fn lines_of(records: Seq<Record>) -> Seq<Seq<char>> {
    records.map_values(|record: Record| line_of(record))
}

/// The texts of a run of lines.
pub open spec fn texts_of(lines: Seq<String>) -> Seq<Seq<char>> {
    lines.map_values(|line: String| line@)
}

/// Renders everything that was put on the channel, in order, as the
/// consumer does when it drains the channel.
pub fn render_lines(events: &Vec<BongoEvent>) -> (lines: Vec<String>)
    ensures
        texts_of(lines@) == lines_of(records_of(events@)),
{
    let mut lines: Vec<String> = Vec::new();
    let mut i: usize = 0;
    while i < events.len()
        invariant
            i <= events.len(),
            texts_of(lines@) == lines_of(records_of(events@.take(i as int))),
        decreases events.len() - i,
    {
        let rendered = render_line(&events[i]);
        proof {
            let before = events@.take(i as int);
            let next = events@[i as int];
            assert(events@.take(i + 1) =~= before.push(next));
            assert(records_of(before.push(next)) =~= records_of(before).push(next@));
            assert(lines_of(records_of(before).push(next@)) =~= lines_of(records_of(before)).push(
                line_of(next@),
            ));
        }
        match rendered {
            Some(line) => {
                let ghost written = lines@;
                lines.push(line);
                assert(texts_of(lines@) =~= texts_of(written).push(line@));
            },
            None => {},
        }
        i += 1;
    }
    assert(events@.take(events.len() as int) =~= events@);
    lines
}

/// Every record on the channel gives exactly one line: as many lines come
/// out as records went in, the line at each place is the line of the record
/// at that place, and no line holds a line feed of its own.
pub proof fn lemma_one_line_per_record(records: Seq<Record>)
    ensures
        lines_of(records).len() == records.len(),
        forall|i: int|
            0 <= i < records.len() ==> (#[trigger] lines_of(records)[i]) == line_of(records[i])
                && single_line(lines_of(records)[i]),
{
    assert forall|i: int| 0 <= i < records.len() implies (#[trigger] lines_of(records)[i])
        == line_of(records[i]) && single_line(lines_of(records)[i]) by {
        lemma_line_is_single(records[i]);
    }
}

} // verus!
