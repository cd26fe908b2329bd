//! The event record: the one value that travels from a producer to the
//! consumer loop.

use vstd::prelude::*;

verus! {

/// The kind of input a record reports. Releases, repeats and motion are
/// never reported, so there is no tag for them.
#[derive(Clone, Copy, Debug, PartialEq, Eq, Structural)]
pub enum EventType {
    /// A key went down.
    KeyDown,
    /// A pointer button went down.
    MouseDown,
}

impl EventType {
    /// The tag as it appears on the wire.
    pub open spec fn tag(self) -> Seq<char> {
        match self {
            EventType::KeyDown => "key_down"@,
            EventType::MouseDown => "mouse_down"@,
        }
    }

    /// The tag as it appears on the wire: `key_down` or `mouse_down`.
    pub fn as_str(self) -> (name: &'static str)
        ensures
            name@ == self.tag(),
    {
        match self {
            EventType::KeyDown => "key_down",
            EventType::MouseDown => "mouse_down",
        }
    }
}

/// Every record carries a tag that is not empty and is one of the two, and
/// the two tags tell the two kinds apart.
pub proof fn lemma_tag_of_two(event_type: EventType)
    ensures
        event_type.tag().len() > 0,
        event_type.tag() == "key_down"@ || event_type.tag() == "mouse_down"@,
        event_type.tag() == "key_down"@ <==> event_type == EventType::KeyDown,
        event_type.tag() == "mouse_down"@ <==> event_type == EventType::MouseDown,
{
    reveal_strlit("key_down");
    reveal_strlit("mouse_down");
}

/// What a record says, as plain mathematical values.
pub struct Record {
    pub event_type: EventType,
    pub key: Seq<char>,
}

/// A normalized input event: what happened, and to which key or button.
///
/// A record is built once by a producer and never changed afterwards; there
/// is no way to alter one short of building another.
#[derive(Debug)]
pub struct BongoEvent {
    event_type: EventType,
    key: String,
}

impl View for BongoEvent {
    type V = Record;

    closed spec fn view(&self) -> Record {
        Record { event_type: self.event_type, key: self.key@ }
    }
}

/// What an optional record says, if there is one.
pub open spec fn record_of(event: Option<BongoEvent>) -> Option<Record> {
    match event {
        Some(e) => Some(e@),
        None => None,
    }
}

/// What a run of records says, one after the other.
pub open spec fn records_of(events: Seq<BongoEvent>) -> Seq<Record> {
    events.map_values(|e: BongoEvent| e@)
}

impl BongoEvent {
    /// Builds the record for `event_type` on the key or button named `key`.
    pub fn new(event_type: EventType, key: String) -> (event: BongoEvent)
        ensures
            event@ == (Record { event_type, key: key@ }),
    {
        BongoEvent { event_type, key }
    }

    /// What kind of input this record reports.
    pub fn event_type(&self) -> (event_type: EventType)
        ensures
            event_type == self@.event_type,
    {
        self.event_type
    }

    /// The name of the key or button.
    pub fn key(&self) -> (key: &str)
        ensures
            key@ == self@.key,
    {
        self.key.as_str()
    }
}

} // verus!
