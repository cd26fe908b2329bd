use bongo_cat_core::device::DeviceRole;
use bongo_cat_core::startup::{plan_startup, Backend, Producer, Startup};

fn device_files() -> Backend {
    Backend::DeviceFiles {
        keyboard: String::from("/dev/input/event3"),
        mouse: String::from("/dev/input/event4"),
    }
}

#[test]
fn hook_backend_starts_one_listener_on_any_host() {
    for capable in [true, false] {
        match plan_startup(Backend::Hook, capable) {
            Startup::Run(producers) => {
                assert_eq!(producers.len(), 1);
                assert!(matches!(producers[0], Producer::Hook));
            }
            other => panic!("expected a run, got {:?}", other),
        }
    }
}

#[test]
fn device_backend_starts_keyboard_then_mouse() {
    match plan_startup(device_files(), true) {
        Startup::Run(producers) => {
            assert_eq!(producers.len(), 2);
            match &producers[0] {
                Producer::Device { role, path } => {
                    assert_eq!(*role, DeviceRole::Keyboard);
                    assert_eq!(path, "/dev/input/event3");
                }
                other => panic!("expected a device, got {:?}", other),
            }
            match &producers[1] {
                Producer::Device { role, path } => {
                    assert_eq!(*role, DeviceRole::Mouse);
                    assert_eq!(path, "/dev/input/event4");
                }
                other => panic!("expected a device, got {:?}", other),
            }
        }
        other => panic!("expected a run, got {:?}", other),
    }
}

#[test]
fn device_backend_is_refused_without_device_files() {
    assert!(matches!(plan_startup(device_files(), false), Startup::Unsupported));
}
