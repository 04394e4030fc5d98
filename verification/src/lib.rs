//! The logic of an exclusive session with one serial device, free of I/O.
//!
//! A driver owns the device and the clock. It hands each command to the session, does
//! the I/O that the session asks for, and reports how it went; the session decides
//! what follows. `command` holds the commands, `step` the vocabulary between session
//! and driver, `state` the session itself, `catalog` and `watcher` the inventory of
//! ports, `model` what all of them mean, and `laws` what follows from that.

use vstd::prelude::*;

pub mod catalog;
pub mod command;
pub mod laws;
pub mod model;
pub mod state;
pub mod step;
pub mod text;
pub mod watcher;

use crate::catalog::{listing, massage_devices_list, PortInfo};
use crate::command::{descriptors, SerialPort};
use crate::model::Session;
use crate::state::{SerialState, Settings};

verus! {

/// Sets a session up from what the host configured and what the first enumeration of
/// the ports brought. The session has no connection and no port asked for, and opens
/// ports with the settings configured. The inventory holds the ports found, or nothing
/// where the enumeration failed: a failed enumeration costs the inventory and nothing
/// else.
pub fn init<H>(settings: Settings, enumerated: Result<Vec<PortInfo>, String>) -> (context: (
    SerialState<H>,
    Vec<SerialPort>,
))
    ensures
        context.0@ == (Session::<H> {
            port: Seq::empty(),
            connection: None,
            baud_rate: settings.baud_rate,
            open_timeout_ms: settings.open_timeout_ms,
            settle_delay_ms: settings.settle_delay_ms,
        }),
        context.0@.consistent(),
        descriptors(context.1@) == match enumerated {
            Ok(devices) => listing(devices@),
            Err(_) => Seq::empty(),
        },
{
    let ports = match enumerated {
        Ok(devices) => massage_devices_list(devices),
        Err(_) => Vec::new(),
    };
    (SerialState::new(settings), ports)
}

} // verus!
