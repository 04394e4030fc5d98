//! The session: the port last asked for and the one connection that may stand.

use vstd::prelude::*;
use vstd::string::*;

use crate::command::{descriptors, SerialPort};
use crate::model::{Link, Session};
use crate::step::{Goal, Request, Status, Step, Task};
use crate::text::{decimal, decimal_text};

verus! {

/// What the host may configure.
#[derive(Debug, Clone, Copy, PartialEq, Eq, Structural)]
pub struct Settings {
    /// The symbol rate that ports are opened with.
    pub baud_rate: u32,
    /// The timeout that ports are opened with, in milliseconds.
    pub open_timeout_ms: u64,
    /// How long a device is given to restart once DTR is raised, in milliseconds.
    pub settle_delay_ms: u64,
    /// How long the watcher rests between two enumerations, in milliseconds.
    pub poll_interval_ms: u64,
}

/// An open port: its handle, the name that it was opened under and the baud rate that
/// it was opened with. The session owns the handle and never looks inside it.
#[derive(Debug, Clone, PartialEq, Eq)]
pub struct Connection<H> {
    pub handle: H,
    pub port_name: String,
    pub baud_rate: u32,
}

/// The state of a session. There is room for one connection; the commands keep it, if
/// it stands, on the port last asked for.
#[derive(Debug, PartialEq, Eq)]
pub struct SerialState<H> {
    /// The port last asked for, whether or not a connection to it stands.
    pub port: String,
    pub connection: Option<Connection<H>>,
    pub baud_rate: u32,
    pub open_timeout_ms: u64,
    pub settle_delay_ms: u64,
}

/// The outcome of a command, as a code and a message.
#[derive(Debug, Clone, PartialEq, Eq)]
pub struct InvokeResult {
    pub code: i32,
    pub message: String,
}

/// A buffer and the number of its bytes that a read has filled.
#[derive(Debug, Clone, Copy, PartialEq, Eq)]
pub struct ReadData<'a> {
    pub data: &'a [u8],
    pub size: usize,
}

impl Default for Settings {
    /// 57600 baud, half a second to open, half a second to settle, a fifth of a second
    /// between enumerations.
    fn default() -> (settings: Settings)
        ensures
            settings == Settings::standard(),
    {
        Settings {
            baud_rate: 57600,
            open_timeout_ms: 500,
            settle_delay_ms: 500,
            poll_interval_ms: 200,
        }
    }
}

impl Settings {
    /// The settings of a host that configures nothing.
    pub open spec fn standard() -> Settings {
        Settings {
            baud_rate: 57600,
            open_timeout_ms: 500,
            settle_delay_ms: 500,
            poll_interval_ms: 200,
        }
    }

    /// The settings of a host that configures the baud rate, or leaves it out.
    pub open spec fn configured(baud_rate: Option<u32>) -> Settings {
        match baud_rate {
            Some(rate) => Settings { baud_rate: rate, ..Settings::standard() },
            None => Settings::standard(),
        }
    }

    /// The settings for a host whose configuration holds the given baud rate, or none:
    /// the rate configured where there is one, the standard rate only where there is
    /// none. Everything else is standard.
    pub fn with_baud_rate(baud_rate: Option<u32>) -> (settings: Settings)
        ensures
            settings == Settings::configured(baud_rate),
    {
        let standard = Settings::default();
        match baud_rate {
            Some(rate) => Settings { baud_rate: rate, ..standard },
            None => standard,
        }
    }
}

impl<H> View for Connection<H> {
    type V = Link<H>;

    open spec fn view(&self) -> Link<H> {
        Link { handle: self.handle, port_name: self.port_name@, baud_rate: self.baud_rate }
    }
}

impl<H> View for SerialState<H> {
    type V = Session<H>;

    open spec fn view(&self) -> Session<H> {
        Session {
            port: self.port@,
            connection: match self.connection {
                Some(connection) => Some(connection@),
                None => None,
            },
            baud_rate: self.baud_rate,
            open_timeout_ms: self.open_timeout_ms,
            settle_delay_ms: self.settle_delay_ms,
        }
    }
}

/// One of the addresses, written in decimal, is the given name.
pub open spec fn address_listed(addresses: Seq<u8>, port_name: Seq<char>) -> bool {
    exists|i: int| 0 <= i < addresses.len() && decimal(#[trigger] addresses[i] as nat) == port_name
}

/// One of the ports listed bears the given name.
pub open spec fn name_listed(inventory: Seq<SerialPort>, port_name: Seq<char>) -> bool {
    exists|i: int| 0 <= i < inventory.len() && (#[trigger] inventory[i]).port_name@ == port_name
}

/// Whether one of the ports listed bears the given name.
pub fn port_listed(inventory: &Vec<SerialPort>, port_name: &String) -> (listed: bool)
    ensures
        listed == name_listed(inventory@, port_name@),
{
    let mut i: usize = 0;
    while i < inventory.len()
        invariant
            i <= inventory.len(),
            forall|j: int| 0 <= j < i ==> (#[trigger] inventory@[j]).port_name@ != port_name@,
        decreases inventory.len() - i,
    {
        if inventory[i].port_name == *port_name {
            return true;
        }
        i += 1;
    }
    false
}

impl<H> SerialState<H> {
    /// A session with no connection and no port asked for yet.
    pub fn new(settings: Settings) -> (state: SerialState<H>)
        ensures
            state@ == (Session::<H> {
                port: Seq::empty(),
                connection: None,
                baud_rate: settings.baud_rate,
                open_timeout_ms: settings.open_timeout_ms,
                settle_delay_ms: settings.settle_delay_ms,
            }),
            state@.consistent(),
    {
        SerialState {
            port: String::new(),
            connection: None,
            baud_rate: settings.baud_rate,
            open_timeout_ms: settings.open_timeout_ms,
            settle_delay_ms: settings.settle_delay_ms,
        }
    }

    /// Whether a USB device is attached whose bus address, written in decimal, is
    /// `port_name`. The driver reads the addresses off the bus.
    pub fn usb_is_mounted(addresses: &Vec<u8>, port_name: &str) -> (mounted: bool)
        ensures
            mounted == address_listed(addresses@, port_name@),
    {
        let wanted = String::from_str(port_name);
        let mut i: usize = 0;
        while i < addresses.len()
            invariant
                i <= addresses.len(),
                wanted@ == port_name@,
                forall|j: int| 0 <= j < i ==> decimal(#[trigger] addresses@[j] as nat) != port_name@,
            decreases addresses.len() - i,
        {
            if decimal_text(addresses[i] as usize) == wanted {
                return true;
            }
            i += 1;
        }
        false
    }

    /// The step that opens the named port with this session's settings.
    pub fn opening(&self, port_name: String, goal: Goal) -> (step: Step)
        ensures
            step@ == self@.opening(port_name@, goal@),
    {
        Step::Perform {
            request: Request::Open {
                port_name: port_name.clone(),
                baud_rate: self.baud_rate,
                timeout_ms: self.open_timeout_ms,
            },
            task: Task::Opening { port_name, goal },
            notify: None,
        }
    }

    /// Whether the connection stands and its port is among those listed.
    pub fn is_valid(&self, inventory: &Vec<SerialPort>) -> (valid: bool)
        ensures
            valid == self@.valid_against(descriptors(inventory@)),
    {
        match &self.connection {
            Some(connection) => {
                let listed = port_listed(inventory, &connection.port_name);
                proof {
                    let listing = descriptors(inventory@);
                    if listed {
                        let i = choose|i: int|
                            0 <= i < inventory@.len() && (#[trigger] inventory@[i]).port_name@
                                == connection.port_name@;
                        assert(listing[i].port_name == connection.port_name@);
                    }
                }
                listed
            },
            None => false,
        }
    }

    /// Checks the session before it is used: a session whose connection stands and
    /// whose port is still listed is valid as it is. Any other is repaired: the port
    /// last asked for is opened anew, and the command ends as that connect does.
    pub fn validate_connection(&self, inventory: &Vec<SerialPort>) -> (step: Step)
        ensures
            step@ == self@.validate_connection(descriptors(inventory@)),
    {
        if self.is_valid(inventory) {
            Step::Finish { reply: Ok(Status::SessionValid), notify: None }
        } else {
            self.opening(self.port.clone(), Goal::Report)
        }
    }
}

} // verus!
