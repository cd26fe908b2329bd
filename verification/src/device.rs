//! The device-file backend: one task per input device, each reading raw
//! `(type, code, value)` triples and reporting the presses among them.

use vstd::prelude::*;
use crate::decimal::{code_text, decimal, lemma_decimal_digits};
use crate::json::{framed, lemma_plain_unescaped, line_of, plain, quoted};
use crate::producer::{emission, emit, ProducerAction, Signal, Step};
use crate::record::{record_of, records_of, BongoEvent, EventType, Record};
use crate::stream::{lemma_filter_map_none, lemma_filter_map_push};

verus! {

/// The event type of key and button events.
pub const EV_KEY: u16 = 1;

/// The value of a key event when the key is released.
pub const KEY_RELEASED: i32 = 0;

/// The value of a key event when the key is pressed.
pub const KEY_PRESSED: i32 = 1;

/// The value of a key event while a held key repeats.
pub const KEY_REPEATED: i32 = 2;

/// Which logical device a device file stands for. It decides how the
/// device's presses are reported.
#[derive(Clone, Copy, Debug, PartialEq, Eq, Structural)]
pub enum DeviceRole {
    Keyboard,
    Mouse,
}

impl DeviceRole {
    /// The kind of record that presses on a device of this role give.
    pub open spec fn reports(self) -> EventType {
        match self {
            DeviceRole::Keyboard => EventType::KeyDown,
            DeviceRole::Mouse => EventType::MouseDown,
        }
    }

    /// The word for this role on the command line and in messages.
    pub open spec fn word(self) -> Seq<char> {
        match self {
            DeviceRole::Keyboard => "keyboard"@,
            DeviceRole::Mouse => "mouse"@,
        }
    }

    /// The word for this role: `keyboard` or `mouse`.
    pub fn name(self) -> (name: &'static str)
        ensures
            name@ == self.word(),
    {
        match self {
            DeviceRole::Keyboard => "keyboard",
            DeviceRole::Mouse => "mouse",
        }
    }

    /// The role that a word stands for, if it stands for one.
    pub open spec fn of_word(word: Seq<char>) -> Option<DeviceRole> {
        if word == DeviceRole::Keyboard.word() {
            Some(DeviceRole::Keyboard)
        } else if word == DeviceRole::Mouse.word() {
            Some(DeviceRole::Mouse)
        } else {
            None
        }
    }

    /// The role that a word stands for. A device under any other word has
    /// no role, and nothing it does is reported.
    pub fn from_name(name: &str) -> (role: Option<DeviceRole>)
        ensures
            role == DeviceRole::of_word(name@),
    {
        let given = name.to_owned();
        if given == DeviceRole::Keyboard.name().to_owned() {
            Some(DeviceRole::Keyboard)
        } else if given == DeviceRole::Mouse.name().to_owned() {
            Some(DeviceRole::Mouse)
        } else {
            None
        }
    }

    /// The kind of record that presses on a device of this role give.
    pub fn event_type(self) -> (event_type: EventType)
        ensures
            event_type == self.reports(),
    {
        match self {
            DeviceRole::Keyboard => EventType::KeyDown,
            DeviceRole::Mouse => EventType::MouseDown,
        }
    }
}

/// Each role is found again from its word.
pub proof fn lemma_role_found_by_word(role: DeviceRole)
    ensures
        DeviceRole::of_word(role.word()) == Some(role),
{
    reveal_strlit("keyboard");
    reveal_strlit("mouse");
    assert("keyboard"@.len() != "mouse"@.len());
}

/// One raw event as a device file delivers it.
#[derive(Clone, Copy, Debug, PartialEq, Eq, Structural)]
pub struct RawDeviceEvent {
    /// What sort of event this is: key, relative motion, sync marker, ...
    pub event_type: u16,
    /// Which key, button or axis.
    pub code: u16,
    /// For a key event: released, pressed or repeated.
    pub value: i32,
}

impl RawDeviceEvent {
    /// A key-type event whose value says "pressed".
    pub open spec fn is_press(self) -> bool {
        self.event_type == EV_KEY && self.value == KEY_PRESSED
    }
}

/// The record that a raw event gives on a device of the given role: one for
/// a press, none for anything else.
pub open spec fn device_record(role: DeviceRole, raw: RawDeviceEvent) -> Option<Record> {
    if raw.is_press() {
        Some(Record { event_type: role.reports(), key: decimal(raw.code as nat) })
    } else {
        None
    }
}

/// Normalizes one raw event from a device of the given role. A press gives
/// a record whose key is the event's code in decimal; releases, repeats and
/// events that are not of key type give nothing.
pub fn normalize_device_event(role: DeviceRole, raw: RawDeviceEvent) -> (event: Option<BongoEvent>)
    ensures
        record_of(event) == device_record(role, raw),
{
    if raw.event_type == EV_KEY && raw.value == KEY_PRESSED {
        Some(BongoEvent::new(role.event_type(), code_text(raw.code)))
    } else {
        None
    }
}

/// A press on a keyboard is always reported, as `key_down`, under the
/// decimal numeral of its code, which is not empty.
pub proof fn lemma_key_press_reported(raw: RawDeviceEvent)
    requires
        raw.is_press(),
    ensures
        device_record(DeviceRole::Keyboard, raw) matches Some(record) && record.event_type
            == EventType::KeyDown && record.event_type.tag() == "key_down"@ && record.key
            == decimal(raw.code as nat) && record.key.len() > 0,
{
    lemma_decimal_digits(raw.code as nat);
}

/// A press on a mouse is always reported, as `mouse_down`, under the
/// decimal numeral of its code, which is not empty.
pub proof fn lemma_button_press_reported(raw: RawDeviceEvent)
    requires
        raw.is_press(),
    ensures
        device_record(DeviceRole::Mouse, raw) matches Some(record) && record.event_type
            == EventType::MouseDown && record.event_type.tag() == "mouse_down"@ && record.key
            == decimal(raw.code as nat) && record.key.len() > 0,
{
    lemma_decimal_digits(raw.code as nat);
}

/// The line of a press is the frame around the decimal numeral of the code
/// between two quotes: a numeral holds nothing that would need an escape.
pub proof fn lemma_press_line(role: DeviceRole, raw: RawDeviceEvent)
    requires
        raw.is_press(),
    ensures
        plain(decimal(raw.code as nat)),
        device_record(role, raw) matches Some(record) && line_of(record) == framed(
            role.reports(),
            quoted(decimal(raw.code as nat)),
        ),
{
    lemma_decimal_digits(raw.code as nat);
    lemma_plain_unescaped(decimal(raw.code as nat));
}

/// Nothing but a press is ever reported: not a release, not a repeat, not
/// an event of another type than key, such as motion.
pub proof fn lemma_other_events_unreported(role: DeviceRole, raw: RawDeviceEvent)
    requires
        raw.event_type != EV_KEY || raw.value != KEY_PRESSED,
    ensures
        device_record(role, raw) is None,
{
}

/// The rule that a device task of the given role applies to each raw event.
pub open spec fn device_rule(role: DeviceRole) -> spec_fn(RawDeviceEvent) -> Option<Record> {
    |raw: RawDeviceEvent| device_record(role, raw)
}

/// The records that a run of raw events gives on a device of the given
/// role: one for each press, in the order of the events.
pub open spec fn device_records(role: DeviceRole, raws: Seq<RawDeviceEvent>) -> Seq<Record> {
    raws.filter_map(device_rule(role))
}

/// Normalizes a run of raw events as a device task does one by one: the
/// presses are reported, in their order, and nothing else is.
pub fn normalize_device_events(role: DeviceRole, raws: &Vec<RawDeviceEvent>) -> (out: Vec<
    BongoEvent,
>)
    ensures
        records_of(out@) == device_records(role, raws@),
{
    let mut out: Vec<BongoEvent> = Vec::new();
    let mut i: usize = 0;
    while i < raws.len()
        invariant
            i <= raws.len(),
            records_of(out@) == device_records(role, raws@.take(i as int)),
        decreases raws.len() - i,
    {
        let normalized = normalize_device_event(role, raws[i]);
        proof {
            assert(raws@.take(i + 1) =~= raws@.take(i as int).push(raws@[i as int]));
            lemma_filter_map_push(raws@.take(i as int), raws@[i as int], device_rule(role));
        }
        match normalized {
            Some(event) => {
                out.push(event);
            },
            None => {},
        }
        i += 1;
    }
    assert(raws@.take(raws.len() as int) =~= raws@);
    out
}

/// However many releases, repeats and motion events come in, not one record
/// goes out.
pub proof fn lemma_quiet_run_unreported(role: DeviceRole, raws: Seq<RawDeviceEvent>)
    requires
        forall|i: int| 0 <= i < raws.len() ==> !(#[trigger] raws[i]).is_press(),
    ensures
        device_records(role, raws).len() == 0,
{
    lemma_filter_map_none(raws, device_rule(role));
}

/// What a device task does for a signal from its event stream.
pub open spec fn device_step_of(role: DeviceRole, signal: Signal<RawDeviceEvent>) -> Step {
    match signal {
        Signal::Event(raw) => emission(device_record(role, raw)),
        Signal::Failed => Step::Fail,
        Signal::Closed => Step::Finish,
    }
}

/// Decides what a device task does next. A raw event is normalized and, if
/// it is a press, sent; a read error is reported and ends the task; the end
/// of the stream ends it quietly.
pub fn device_step(role: DeviceRole, signal: Signal<RawDeviceEvent>) -> (action: ProducerAction)
    ensures
        action@ == device_step_of(role, signal),
{
    match signal {
        Signal::Event(raw) => emit(normalize_device_event(role, raw)),
        Signal::Failed => ProducerAction::Fail,
        Signal::Closed => ProducerAction::Finish,
    }
}

/// `evdev::InputEvent`: one event as the device-file library hands it over.
/// It is opaque here, and is read only through the three accessors below.
#[verifier::external_type_specification]
#[verifier::external_body]
pub struct ExInputEvent(evdev::InputEvent);

/// The raw type field that an event of the device-file library holds.
pub uninterp spec fn input_type(event: evdev::InputEvent) -> u16;

/// The raw code field that an event of the device-file library holds.
pub uninterp spec fn input_code(event: evdev::InputEvent) -> u16;

/// The raw value field that an event of the device-file library holds.
pub uninterp spec fn input_value(event: evdev::InputEvent) -> i32;

/// `evdev::InputEvent::code` returns the event's raw code field: a number
/// that depends on the event alone, named `input_code`.
pub assume_specification[ evdev::InputEvent::code ](event: &evdev::InputEvent) -> (code: u16)
    ensures
        code == input_code(*event),
;

/// `evdev::InputEvent::value` returns the event's raw value field: a number
/// that depends on the event alone, named `input_value`.
pub assume_specification[ evdev::InputEvent::value ](event: &evdev::InputEvent) -> (value: i32)
    ensures
        value == input_value(*event),
;

/// `evdev::InputEvent::event_type` returns the event's raw type field in a
/// one-field wrapper; this takes the number out of it. The number depends
/// on the event alone, and is named `input_type`.
#[verifier::external_body]
fn input_event_type(event: &evdev::InputEvent) -> (event_type: u16)
    ensures
        event_type == input_type(*event),
{
    event.event_type().0
}

/// The three numbers that an event of the device-file library holds.
pub open spec fn raw_event_of(event: evdev::InputEvent) -> RawDeviceEvent {
    RawDeviceEvent {
        event_type: input_type(event),
        code: input_code(event),
        value: input_value(event),
    }
}

/// A signal from a device stream, with its event read for its three
/// numbers.
pub open spec fn raw_of(signal: Signal<evdev::InputEvent>) -> Signal<RawDeviceEvent> {
    match signal {
        Signal::Event(event) => Signal::Event(raw_event_of(event)),
        Signal::Failed => Signal::Failed,
        Signal::Closed => Signal::Closed,
    }
}

/// Reads out of a signal from a device stream the three numbers that the
/// device task decides on.
fn raw_signal(signal: Signal<evdev::InputEvent>) -> (raw: Signal<RawDeviceEvent>)
    ensures
        raw == raw_of(signal),
{
    match signal {
        Signal::Event(event) => Signal::Event(
            RawDeviceEvent {
                event_type: input_event_type(&event),
                code: event.code(),
                value: event.value(),
            },
        ),
        Signal::Failed => Signal::Failed,
        Signal::Closed => Signal::Closed,
    }
}

/// Decides what a device task does next, for a signal as the device stream
/// gives it. An event is read for its type, code and value and handled as
/// `device_step` handles those three numbers: a press is sent, anything
/// else is passed over. A read error is reported and ends the task; the end
/// of the stream ends it quietly.
pub fn stream_step(role: DeviceRole, signal: Signal<evdev::InputEvent>) -> (action: ProducerAction)
    ensures
        action@ == device_step_of(role, raw_of(signal)),
{
    let raw = raw_signal(signal);
    device_step(role, raw)
}

} // verus!
