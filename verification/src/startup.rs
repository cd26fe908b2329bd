//! Which producers a chosen backend starts.

use vstd::prelude::*;
use crate::device::DeviceRole;

verus! {

/// The backend chosen on the command line.
#[derive(Debug)]
pub enum Backend {
    /// Capture through a process-wide input hook. Takes no parameters.
    Hook,
    /// Capture by reading device files: one for the keyboard, one for the
    /// mouse. Both paths are required.
    DeviceFiles { keyboard: String, mouse: String },
}

/// One producer to start.
#[derive(Debug)]
pub enum Producer {
    /// The hook listener, on a thread of its own.
    Hook,
    /// A reader for one device file, as a task of its own.
    Device { role: DeviceRole, path: String },
}

/// What to do at startup.
#[derive(Debug)]
pub enum Startup {
    /// Start these producers, in this order, then run the consumer loop.
    Run(Vec<Producer>),
    /// The host cannot read device files: report that and leave without
    /// starting any producer.
    Unsupported,
}

/// Plans the startup for the chosen backend on a host that can
/// (`device_files`) or cannot read input device files. The hook backend
/// starts its one listener on any host. The device-file backend starts one
/// reader for the keyboard's file and one for the mouse's, in that order,
/// and is refused on a host without device files.
pub fn plan_startup(backend: Backend, device_files: bool) -> (startup: Startup)
    ensures
        match backend {
            Backend::Hook => startup matches Startup::Run(producers) && producers@ == seq![
                Producer::Hook,
            ],
            Backend::DeviceFiles { keyboard, mouse } => if device_files {
                startup matches Startup::Run(producers) && producers@ == seq![
                    Producer::Device { role: DeviceRole::Keyboard, path: keyboard },
                    Producer::Device { role: DeviceRole::Mouse, path: mouse },
                ]
            } else {
                startup is Unsupported
            },
        },
{
    match backend {
        Backend::Hook => {
            let mut producers: Vec<Producer> = Vec::new();
            producers.push(Producer::Hook);
            Startup::Run(producers)
        },
        Backend::DeviceFiles { keyboard, mouse } => {
            if device_files {
                let mut producers: Vec<Producer> = Vec::new();
                producers.push(Producer::Device { role: DeviceRole::Keyboard, path: keyboard });
                producers.push(Producer::Device { role: DeviceRole::Mouse, path: mouse });
                assert(producers@ =~= seq![
                    Producer::Device { role: DeviceRole::Keyboard, path: keyboard },
                    Producer::Device { role: DeviceRole::Mouse, path: mouse },
                ]);
                Startup::Run(producers)
            } else {
                Startup::Unsupported
            }
        },
    }
}

} // verus!
