//! The hook backend: one process-wide listener that is called back for
//! every keyboard and pointer event, and reports the presses among them.

use vstd::prelude::*;
use crate::json::{framed, lemma_plain_unescaped, line_of, plain, quoted};
use crate::producer::{emission, emit, sends, ProducerAction, Signal, Step};
use crate::record::{record_of, records_of, BongoEvent, EventType, Record};
use crate::stream::{lemma_filter_map_none, lemma_filter_map_push};

verus! {

/// The platform's name for a key or a button. A name is never empty: the
/// only way to make one is `InputName::new`, which refuses the empty text.
#[derive(Debug)]
pub struct InputName {
    text: String,
}

impl View for InputName {
    type V = Seq<char>;

    closed spec fn view(&self) -> Seq<char> {
        self.text@
    }
}

impl InputName {
    #[verifier::type_invariant]
    spec fn not_empty(self) -> bool {
        self.text@.len() > 0
    }

    /// Makes a name of a text, unless the text is empty.
    pub fn new(text: String) -> (name: Option<InputName>)
        ensures
            match name {
                Some(n) => n@ == text@ && text@.len() > 0,
                None => text@.len() == 0,
            },
    {
        if text.as_str().is_empty() {
            None
        } else {
            Some(InputName { text })
        }
    }

    /// The name as text. It is not empty.
    pub fn as_str(&self) -> (text: &str)
        ensures
            text@ == self@,
            text@.len() > 0,
    {
        proof {
            use_type_invariant(self);
        }
        self.text.as_str()
    }
}

/// One raw event as the listener receives it. Keys and buttons come with
/// the platform's name for them; where the pointer moved to and how far the
/// wheel turned is of no interest here and is not kept.
#[derive(Debug)]
pub enum HookEvent {
    KeyPress(InputName),
    KeyRelease(InputName),
    ButtonPress(InputName),
    ButtonRelease(InputName),
    MouseMove,
    Wheel,
}

impl HookEvent {
    /// A key or a button went down.
    pub open spec fn is_press(self) -> bool {
        self is KeyPress || self is ButtonPress
    }

    /// The platform's name for the key or button of this event; empty for
    /// motion and wheel events, which have none.
    pub open spec fn name(self) -> Seq<char> {
        match self {
            HookEvent::KeyPress(key) => key@,
            HookEvent::KeyRelease(key) => key@,
            HookEvent::ButtonPress(button) => button@,
            HookEvent::ButtonRelease(button) => button@,
            HookEvent::MouseMove => Seq::empty(),
            HookEvent::Wheel => Seq::empty(),
        }
    }
}

/// The record that a raw event gives: one for a key press, one for a button
/// press, none for anything else.
pub open spec fn hook_record(event: HookEvent) -> Option<Record> {
    match event {
        HookEvent::KeyPress(key) => Some(Record { event_type: EventType::KeyDown, key: key@ }),
        HookEvent::ButtonPress(button) => Some(
            Record { event_type: EventType::MouseDown, key: button@ },
        ),
        _ => None,
    }
}

/// Normalizes one raw event. A key press gives a `key_down` record and a
/// button press a `mouse_down` record, each under the platform's name for
/// the key or button, which is not empty; releases, motion and the wheel
/// give nothing.
pub fn normalize_hook_event(event: &HookEvent) -> (out: Option<BongoEvent>)
    ensures
        record_of(out) == hook_record(*event),
        *event is KeyPress ==> sends(emission(record_of(out)), EventType::KeyDown),
        *event is ButtonPress ==> sends(emission(record_of(out)), EventType::MouseDown),
{
    match event {
        HookEvent::KeyPress(key) => Some(
            BongoEvent::new(EventType::KeyDown, key.as_str().to_owned()),
        ),
        HookEvent::ButtonPress(button) => Some(
            BongoEvent::new(EventType::MouseDown, button.as_str().to_owned()),
        ),
        _ => None,
    }
}

/// A key press is always reported, as `key_down`, under the key's own
/// name.
pub proof fn lemma_key_press_reported(event: HookEvent)
    requires
        event is KeyPress,
    ensures
        hook_record(event) matches Some(record) && record.event_type == EventType::KeyDown
            && record.event_type.tag() == "key_down"@ && record.key == event.name(),
{
}

/// A button press is always reported, as `mouse_down`, under the button's
/// own name.
pub proof fn lemma_button_press_reported(event: HookEvent)
    requires
        event is ButtonPress,
    ensures
        hook_record(event) matches Some(record) && record.event_type == EventType::MouseDown
            && record.event_type.tag() == "mouse_down"@ && record.key == event.name(),
{
}

/// The line of a press under a plain name is the frame around the name
/// between two quotes.
pub proof fn lemma_press_line(event: HookEvent)
    requires
        event.is_press(),
        plain(event.name()),
    ensures
        hook_record(event) matches Some(record) && line_of(record) == framed(
            record.event_type,
            quoted(event.name()),
        ),
{
    lemma_plain_unescaped(event.name());
}

/// Nothing but a press is ever reported: not a release, not motion, not the
/// wheel.
pub proof fn lemma_other_events_unreported(event: HookEvent)
    requires
        !event.is_press(),
    ensures
        hook_record(event) is None,
{
}

/// What the listener's thread does for a signal from the hook.
pub open spec fn hook_step_of(signal: Signal<HookEvent>) -> Step {
    match signal {
        Signal::Event(event) => emission(hook_record(event)),
        Signal::Failed => Step::Fail,
        Signal::Closed => Step::Finish,
    }
}

/// Decides what the listener's thread does next. A raw event is normalized
/// and, if it is a press, sent: a key press as `key_down`, a button press
/// as `mouse_down`, each under a key that is not empty. A hook that could
/// not be installed is reported and ends the thread; a listener that
/// returns ends it quietly.
pub fn hook_step(signal: Signal<HookEvent>) -> (action: ProducerAction)
    ensures
        action@ == hook_step_of(signal),
        signal is Event && signal->0 is KeyPress ==> sends(action@, EventType::KeyDown),
        signal is Event && signal->0 is ButtonPress ==> sends(action@, EventType::MouseDown),
{
    match signal {
        Signal::Event(event) => emit(normalize_hook_event(&event)),
        Signal::Failed => ProducerAction::Fail,
        Signal::Closed => ProducerAction::Finish,
    }
}

/// The rule that the listener applies to each raw event.
pub open spec fn hook_rule() -> spec_fn(HookEvent) -> Option<Record> {
    |event: HookEvent| hook_record(event)
}

/// The records that a run of raw events gives: one for each press, in the
/// order of the events.
pub open spec fn hook_records(events: Seq<HookEvent>) -> Seq<Record> {
    events.filter_map(hook_rule())
}

/// Normalizes a run of raw events as the listener does one by one: the
/// presses are reported, in their order, and nothing else is.
pub fn normalize_hook_events(events: &Vec<HookEvent>) -> (out: Vec<BongoEvent>)
    ensures
        records_of(out@) == hook_records(events@),
        forall|k: int| 0 <= k < out@.len() ==> (#[trigger] out@[k])@.key.len() > 0,
{
    let mut out: Vec<BongoEvent> = Vec::new();
    let mut i: usize = 0;
    while i < events.len()
        invariant
            i <= events.len(),
            records_of(out@) == hook_records(events@.take(i as int)),
            forall|k: int| 0 <= k < out@.len() ==> (#[trigger] out@[k])@.key.len() > 0,
        decreases events.len() - i,
    {
        let normalized = normalize_hook_event(&events[i]);
        proof {
            assert(events@.take(i + 1) =~= events@.take(i as int).push(events@[i as int]));
            lemma_filter_map_push(events@.take(i as int), events@[i as int], hook_rule());
        }
        match normalized {
            Some(event) => {
                out.push(event);
            },
            None => {},
        }
        i += 1;
    }
    assert(events@.take(events.len() as int) =~= events@);
    out
}

/// However many releases, motions and wheel turns come in, not one record
/// goes out.
pub proof fn lemma_quiet_run_unreported(events: Seq<HookEvent>)
    requires
        forall|i: int| 0 <= i < events.len() ==> !(#[trigger] events[i]).is_press(),
    ensures
        hook_records(events).len() == 0,
{
    lemma_filter_map_none(events, hook_rule());
}

} // verus!
