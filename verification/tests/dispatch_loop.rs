use bongo_cat_core::dispatch::{dispatch_line, dispatch_step, render_lines, DispatchAction};
use bongo_cat_core::json::{frame_line, render_line};
use bongo_cat_core::record::{BongoEvent, EventType};

fn key_down(key: &str) -> BongoEvent {
    BongoEvent::new(EventType::KeyDown, String::from(key))
}

fn mouse_down(key: &str) -> BongoEvent {
    BongoEvent::new(EventType::MouseDown, String::from(key))
}

#[test]
fn frame_goes_around_an_encoded_key() {
    assert_eq!(
        frame_line(EventType::KeyDown, "\"A\""),
        "{\"event_type\":\"key_down\",\"key\":\"A\"}"
    );
    assert_eq!(
        frame_line(EventType::MouseDown, "\"Left\""),
        "{\"event_type\":\"mouse_down\",\"key\":\"Left\"}"
    );
    assert_eq!(frame_line(EventType::KeyDown, ""), "{\"event_type\":\"key_down\",\"key\":}");
}

#[test]
fn line_has_the_key_as_a_json_string() {
    assert_eq!(
        render_line(&key_down("A")),
        Some(String::from("{\"event_type\":\"key_down\",\"key\":\"A\"}"))
    );
    assert_eq!(
        render_line(&mouse_down("Left")),
        Some(String::from("{\"event_type\":\"mouse_down\",\"key\":\"Left\"}"))
    );
}

#[test]
fn line_is_what_the_json_library_reads_back() {
    for key in ["A", "KeyA", "Unknown(65312)", "30", "", "a\"b", "back\\slash", "tab\there", "é√"]
    {
        let line = render_line(&key_down(key)).unwrap();
        let value: serde_json::Value = serde_json::from_str(&line).unwrap();
        let object = value.as_object().unwrap();
        assert_eq!(object.len(), 2);
        assert_eq!(object.get("event_type").and_then(|v| v.as_str()), Some("key_down"));
        assert_eq!(object.get("key").and_then(|v| v.as_str()), Some(key));
    }
}

#[test]
fn line_is_what_the_json_library_writes_for_the_same_object() {
    for (event_type, tag) in [(EventType::KeyDown, "key_down"), (EventType::MouseDown, "mouse_down")]
    {
        for key in ["A", "Left", "272", "", "a\"b\\c", "line\nfeed", "\u{1}\u{1f}", "日本語"] {
            let mut object = serde_json::Map::new();
            object.insert(String::from("event_type"), serde_json::Value::from(tag));
            object.insert(String::from("key"), serde_json::Value::from(key));
            let expected = serde_json::to_string(&serde_json::Value::Object(object)).unwrap();
            let record = BongoEvent::new(event_type, String::from(key));
            assert_eq!(render_line(&record), Some(expected));
        }
    }
}

#[test]
fn quotes_and_backslashes_in_a_key_are_escaped() {
    assert_eq!(
        render_line(&key_down("a\"b")),
        Some(String::from("{\"event_type\":\"key_down\",\"key\":\"a\\\"b\"}"))
    );
    assert_eq!(
        render_line(&key_down("a\\b")),
        Some(String::from("{\"event_type\":\"key_down\",\"key\":\"a\\\\b\"}"))
    );
}

#[test]
fn line_feed_in_a_key_does_not_break_the_line() {
    let line = render_line(&key_down("two\nlines\r\n")).unwrap();
    assert!(!line.contains('\n'));
    assert_eq!(line, "{\"event_type\":\"key_down\",\"key\":\"two\\nlines\\r\\n\"}");
}

#[test]
fn each_record_becomes_one_line() {
    match dispatch_step(Some(key_down("A"))) {
        DispatchAction::Emit(line) => {
            assert_eq!(line, "{\"event_type\":\"key_down\",\"key\":\"A\"}");
            assert_eq!(line.lines().count(), 1);
        }
        other => panic!("expected a line, got {:?}", other),
    }
    match dispatch_step(Some(mouse_down("Left"))) {
        DispatchAction::Emit(line) => {
            assert_eq!(line, "{\"event_type\":\"mouse_down\",\"key\":\"Left\"}")
        }
        other => panic!("expected a line, got {:?}", other),
    }
}

#[test]
fn record_without_a_line_is_dropped_and_the_loop_goes_on() {
    assert!(matches!(dispatch_line(None), DispatchAction::Skip));
    assert!(!matches!(dispatch_line(None), DispatchAction::Stop));
    match dispatch_line(Some(String::from("{\"event_type\":\"key_down\",\"key\":\"A\"}"))) {
        DispatchAction::Emit(line) => {
            assert_eq!(line, "{\"event_type\":\"key_down\",\"key\":\"A\"}")
        }
        other => panic!("expected a line, got {:?}", other),
    }
    // A failure between two records leaves both their lines as they are.
    let mut written = Vec::new();
    for rendered in [render_line(&key_down("A")), None, render_line(&mouse_down("Left"))] {
        match dispatch_line(rendered) {
            DispatchAction::Emit(line) => written.push(line),
            DispatchAction::Skip => {}
            DispatchAction::Stop => panic!("a failure never ends the loop"),
        }
    }
    assert_eq!(
        written,
        vec![
            String::from("{\"event_type\":\"key_down\",\"key\":\"A\"}"),
            String::from("{\"event_type\":\"mouse_down\",\"key\":\"Left\"}"),
        ]
    );
}

fn written_for(c: char) -> String {
    match c {
        '"' => String::from("\\\""),
        '\\' => String::from("\\\\"),
        '\u{8}' => String::from("\\b"),
        '\t' => String::from("\\t"),
        '\n' => String::from("\\n"),
        '\u{c}' => String::from("\\f"),
        '\r' => String::from("\\r"),
        c if (c as u32) < 0x20 => {
            let digits = b"0123456789abcdef";
            let n = c as usize;
            format!("\\u00{}{}", digits[n / 16] as char, digits[n % 16] as char)
        }
        c => c.to_string(),
    }
}

#[test]
fn every_character_is_written_as_the_rule_says() {
    let mut sample: Vec<char> = (0u32..=0x7f).filter_map(char::from_u32).collect();
    sample.extend(['\u{80}', 'é', '\u{2028}', '\u{2029}', '日', '\u{ffff}', '\u{10ffff}', '/']);
    for c in sample {
        let key: String = [c].iter().collect();
        let expected = format!("{{\"event_type\":\"key_down\",\"key\":\"{}\"}}", written_for(c));
        assert_eq!(render_line(&key_down(&key)), Some(expected), "character {:?}", c);
        let around: String = ['x', c, 'y', c].iter().collect();
        let expected = format!(
            "{{\"event_type\":\"mouse_down\",\"key\":\"x{}y{}\"}}",
            written_for(c),
            written_for(c)
        );
        assert_eq!(render_line(&mouse_down(&around)), Some(expected), "character {:?}", c);
    }
}

#[test]
fn every_record_has_a_line_of_its_own() {
    for key in ["", "\n", "\"\\", "\u{0}\u{1}\u{1f}", "a\r\nb", "KeyA"] {
        for record in [key_down(key), mouse_down(key)] {
            let line = render_line(&record).unwrap();
            assert!(!line.contains('\n'));
            assert!(matches!(dispatch_step(Some(record)), DispatchAction::Emit(_)));
        }
    }
}

#[test]
fn closed_channel_stops_the_loop() {
    assert!(matches!(dispatch_step(None), DispatchAction::Stop));
}

#[test]
fn records_never_stop_the_loop() {
    for key in ["A", "", "\u{0}", "\u{1f}\u{7f}", "\"", "\n"] {
        for record in [key_down(key), mouse_down(key)] {
            assert!(!matches!(dispatch_step(Some(record)), DispatchAction::Stop));
        }
    }
}

#[test]
fn drained_channel_gives_lines_in_order() {
    let channel = vec![key_down("KeyH"), mouse_down("Left"), key_down("KeyI")];
    assert_eq!(
        render_lines(&channel),
        vec![
            String::from("{\"event_type\":\"key_down\",\"key\":\"KeyH\"}"),
            String::from("{\"event_type\":\"mouse_down\",\"key\":\"Left\"}"),
            String::from("{\"event_type\":\"key_down\",\"key\":\"KeyI\"}"),
        ]
    );
    assert!(render_lines(&Vec::new()).is_empty());
}

#[test]
fn two_producers_give_two_lines_in_either_order() {
    let keyboard_line = String::from("{\"event_type\":\"key_down\",\"key\":\"30\"}");
    let mouse_line = String::from("{\"event_type\":\"mouse_down\",\"key\":\"272\"}");

    let keyboard_first = render_lines(&vec![key_down("30"), mouse_down("272")]);
    assert_eq!(keyboard_first, vec![keyboard_line.clone(), mouse_line.clone()]);

    let mouse_first = render_lines(&vec![mouse_down("272"), key_down("30")]);
    assert_eq!(mouse_first, vec![mouse_line.clone(), keyboard_line.clone()]);

    for lines in [keyboard_first, mouse_first] {
        assert_eq!(lines.len(), 2);
        for line in lines {
            let value: serde_json::Value = serde_json::from_str(&line).unwrap();
            assert!(value.is_object());
        }
    }
}

#[test]
fn interleaved_producers_keep_their_own_order() {
    let channel = vec![
        key_down("1"),
        mouse_down("a"),
        mouse_down("b"),
        key_down("2"),
        key_down("3"),
        mouse_down("c"),
    ];
    let lines = render_lines(&channel);
    assert_eq!(lines.len(), 6);
    let keyboard: Vec<&String> = lines.iter().filter(|l| l.contains("key_down")).collect();
    let mouse: Vec<&String> = lines.iter().filter(|l| l.contains("mouse_down")).collect();
    assert_eq!(keyboard, render_lines(&vec![key_down("1"), key_down("2"), key_down("3")]).iter().collect::<Vec<_>>());
    assert_eq!(mouse, render_lines(&vec![mouse_down("a"), mouse_down("b"), mouse_down("c")]).iter().collect::<Vec<_>>());
}
