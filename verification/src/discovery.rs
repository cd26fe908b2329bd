//! Device discovery: which of the candidate device files are input devices
//! that an operator can choose from.

use vstd::prelude::*;
use crate::stream::lemma_filter_map_push;

verus! {

/// What came of trying one candidate device file.
#[derive(Debug)]
pub enum Probe {
    /// The file could not be opened: no permission, or a stale entry.
    Unopened,
    /// The file opened, but the device reports no name.
    Unnamed,
    /// The file opened and the device reports this name.
    Named(String),
}

/// One candidate device file and what came of trying it.
#[derive(Debug)]
pub struct Candidate {
    pub path: String,
    pub probe: Probe,
}

/// An input device that can be chosen: its name, for the operator, and the
/// path of its device file.
#[derive(Debug)]
pub struct FoundDevice {
    pub name: String,
    pub path: String,
}

/// What discovery makes of one candidate: a device to list if it opened and
/// has a name, nothing otherwise.
pub open spec fn found_device(candidate: Candidate) -> Option<FoundDevice> {
    match candidate.probe {
        Probe::Named(name) => Some(FoundDevice { name, path: candidate.path }),
        _ => None,
    }
}

/// The rule that discovery applies to each candidate.
pub open spec fn found_rule() -> spec_fn(Candidate) -> Option<FoundDevice> {
    |candidate: Candidate| found_device(candidate)
}

/// Picks the devices to list: every candidate that opened and reports a
/// name, with that name and its path, in the order of the candidates.
/// Candidates that did not open are passed over in silence.
pub fn discover(candidates: &Vec<Candidate>) -> (found: Vec<FoundDevice>)
    ensures
        found@ == candidates@.filter_map(found_rule()),
{
    let mut found: Vec<FoundDevice> = Vec::new();
    let mut i: usize = 0;
    while i < candidates.len()
        invariant
            i <= candidates.len(),
            found@ == candidates@.take(i as int).filter_map(found_rule()),
        decreases candidates.len() - i,
    {
        proof {
            assert(candidates@.take(i + 1) =~= candidates@.take(i as int).push(
                candidates@[i as int],
            ));
            lemma_filter_map_push(candidates@.take(i as int), candidates@[i as int], found_rule());
        }
        let candidate = &candidates[i];
        match &candidate.probe {
            Probe::Named(name) => {
                found.push(FoundDevice { name: name.clone(), path: candidate.path.clone() });
            },
            _ => {},
        }
        i += 1;
    }
    assert(candidates@.take(candidates.len() as int) =~= candidates@);
    found
}

} // verus!
