use bongo_cat_core::discovery::{discover, Candidate, Probe};

fn candidate(path: &str, probe: Probe) -> Candidate {
    Candidate { path: String::from(path), probe }
}

#[test]
fn named_devices_are_listed_in_order() {
    let candidates = vec![
        candidate("/dev/input/event0", Probe::Named(String::from("Power Button"))),
        candidate("/dev/input/event1", Probe::Unopened),
        candidate("/dev/input/event2", Probe::Unnamed),
        candidate("/dev/input/event3", Probe::Named(String::from("AT Keyboard"))),
        candidate("/dev/input/event4", Probe::Named(String::from("USB Mouse"))),
    ];
    let found = discover(&candidates);
    let listed: Vec<(&str, &str)> =
        found.iter().map(|d| (d.name.as_str(), d.path.as_str())).collect();
    assert_eq!(
        listed,
        vec![
            ("Power Button", "/dev/input/event0"),
            ("AT Keyboard", "/dev/input/event3"),
            ("USB Mouse", "/dev/input/event4"),
        ]
    );
}

#[test]
fn devices_that_do_not_open_are_passed_over() {
    let candidates = vec![
        candidate("/dev/input/event0", Probe::Unopened),
        candidate("/dev/input/event1", Probe::Unopened),
        candidate("/dev/input/event2", Probe::Unnamed),
    ];
    assert!(discover(&candidates).is_empty());
}

#[test]
fn no_candidates_no_devices() {
    assert!(discover(&Vec::new()).is_empty());
}

#[test]
fn a_device_may_be_named_with_the_empty_name() {
    let candidates = vec![candidate("/dev/input/event9", Probe::Named(String::new()))];
    let found = discover(&candidates);
    assert_eq!(found.len(), 1);
    assert_eq!(found[0].name, "");
    assert_eq!(found[0].path, "/dev/input/event9");
}
