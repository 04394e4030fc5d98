//! The mathematical model of a session: what each value stands for, and what each
//! command and each step of I/O does to it.

use vstd::prelude::*;
use vstd::utf8::*;

use crate::command::SerialErrors;
use crate::step::{Event, Exchange};
use crate::text::{decimal, without_newlines};

verus! {

/// What a `SerialPort` stands for.
pub struct PortDescriptor {
    pub port_name: Seq<char>,
    pub port_info: Seq<char>,
}

/// What a `SerialError` stands for.
pub struct Fault {
    pub error_type: SerialErrors,
    pub message: Seq<char>,
}

impl Fault {
    /// No connection stands.
    pub open spec fn not_connected() -> Fault {
        Fault { error_type: SerialErrors::Connection, message: "No connection found"@ }
    }

    /// The port could not be opened.
    pub open spec fn open_failed(cause: Seq<char>) -> Fault {
        Fault {
            error_type: SerialErrors::Connection,
            message: "Couldn't open serial port: "@ + cause,
        }
    }

    /// The DTR line could not be driven.
    pub open spec fn boot_failed(cause: Seq<char>) -> Fault {
        Fault {
            error_type: SerialErrors::Boot,
            message: "Ran into issue sending DTR signal "@ + cause,
        }
    }

    /// The port refused the write or the flush.
    pub open spec fn write_failed(cause: Seq<char>) -> Fault {
        Fault { error_type: SerialErrors::Write, message: cause }
    }

    /// The port took `written` bytes of a payload of `expected` bytes. The message
    /// names both counts in decimal.
    pub open spec fn short_write(written: nat, expected: nat) -> Fault {
        Fault {
            error_type: SerialErrors::Write,
            message: "Incomplete write only wrote "@ + decimal(written) + " bytes of "@ + decimal(
                expected,
            ),
        }
    }

    /// No reply could be read, or the reply was the failure token `cause`.
    pub open spec fn read_failed(cause: Seq<char>) -> Fault {
        Fault { error_type: SerialErrors::Read, message: cause }
    }

    /// The reply was not text.
    pub open spec fn undecodable() -> Fault {
        Fault { error_type: SerialErrors::Read, message: "Reply is not valid UTF-8"@ }
    }
}

/// What a `Status` stands for.
pub enum StatusView {
    Connected,
    AlreadyConnected,
    Disconnected,
    AlreadyDisconnected,
    SessionValid,
    DtrSent,
    Acknowledged(Seq<char>),
}

/// What a `Request` stands for.
pub enum RequestView {
    Open { port_name: Seq<char>, baud_rate: u32, timeout_ms: u64 },
    SetDtr { level: bool },
    Settle { delay_ms: u64 },
    Send { bytes: Seq<u8> },
    Flush,
    ReadLine,
}

/// What an `Outcome` stands for.
pub enum OutcomeView<H> {
    Opened(H),
    Sent(usize),
    Line(Seq<u8>),
    Done,
    Failed(Seq<char>),
}

/// What a `Goal` stands for.
pub enum GoalView {
    Report,
    Send { bytes: Seq<u8> },
}

/// What a `Task` stands for.
pub enum TaskView {
    Opening { port_name: Seq<char>, goal: GoalView },
    Booting { goal: GoalView },
    Settling { goal: GoalView },
    Exchanging(Exchange),
    Toggling,
}

/// What a `Step` stands for.
pub enum StepView {
    Perform { request: RequestView, task: TaskView, notify: Option<Event> },
    Finish { reply: Result<StatusView, Fault>, notify: Option<Event> },
}

/// A status in words; for an acknowledged write, the payload.
pub open spec fn text_of(status: StatusView) -> Seq<char> {
    match status {
        StatusView::Connected => "New connection established"@,
        StatusView::AlreadyConnected => "Already connected"@,
        StatusView::Disconnected => "Dropped connection"@,
        StatusView::AlreadyDisconnected => "Nothing to disconnect"@,
        StatusView::SessionValid => "Old session is good"@,
        StatusView::DtrSent => "DTR signal successfully sent"@,
        StatusView::Acknowledged(payload) => payload,
    }
}

impl<H> OutcomeView<H> {
    /// Why an outcome does not bring what was asked for: the cause that the driver
    /// gave, or that the outcome answers another request.
    pub open spec fn cause(self) -> Seq<char> {
        match self {
            OutcomeView::Failed(cause) => cause,
            _ => "Unexpected outcome"@,
        }
    }
}

/// What a `Connection` stands for: the handle of an open port, the name that it was
/// opened under and the baud rate that it was opened with.
pub struct Link<H> {
    pub handle: H,
    pub port_name: Seq<char>,
    pub baud_rate: u32,
}

/// What a `SerialState` stands for: the port last asked for, the connection if one
/// stands, and the settings that connections are opened with.
pub struct Session<H> {
    pub port: Seq<char>,
    pub connection: Option<Link<H>>,
    pub baud_rate: u32,
    pub open_timeout_ms: u64,
    pub settle_delay_ms: u64,
}

/// A reply that is a failure token of the device.
pub open spec fn is_sentinel(payload: Seq<char>) -> bool {
    payload == "ERROR"@ || payload == "nok"@
}

/// What a read amounts to. A read that failed is a read error with the cause as its
/// message. Bytes that were read are decoded and lose their line feeds; a failure
/// token is a read error with the token as its message, any other text is the reply.
pub open spec fn read_reply(received: Result<Seq<u8>, Seq<char>>) -> Result<Seq<char>, Fault> {
    match received {
        Err(cause) => Err(Fault::read_failed(cause)),
        Ok(bytes) => if !valid_utf8(bytes) {
            Err(Fault::undecodable())
        } else if is_sentinel(without_newlines(decode_utf8(bytes))) {
            Err(Fault::read_failed(without_newlines(decode_utf8(bytes))))
        } else {
            Ok(without_newlines(decode_utf8(bytes)))
        },
    }
}

/// What driving the DTR line amounts to.
pub open spec fn dtr_reply(toggled: Result<(), Seq<char>>) -> Result<Seq<char>, Fault> {
    match toggled {
        Ok(_) => Ok(text_of(StatusView::DtrSent)),
        Err(cause) => Err(Fault::boot_failed(cause)),
    }
}

/// The step that ends a command with `reply` and tells subscribers nothing.
pub open spec fn finish(reply: Result<StatusView, Fault>) -> StepView {
    StepView::Finish { reply, notify: None }
}

/// The step that hands `bytes` to the port.
pub open spec fn send(bytes: Seq<u8>, notify: Option<Event>) -> StepView {
    StepView::Perform {
        request: RequestView::Send { bytes },
        task: TaskView::Exchanging(Exchange::Sending { expected: bytes.len() as usize }),
        notify,
    }
}

/// How a write goes on. The payload is flushed once the port has taken bytes of it,
/// whatever their number; after the flush a count short of the payload ends the write
/// with both counts, and only a full count lets the reply be read.
pub open spec fn write_step<H>(exchange: Exchange, outcome: OutcomeView<H>) -> StepView {
    match exchange {
        Exchange::Sending { expected } => match outcome {
            OutcomeView::Sent(written) => StepView::Perform {
                request: RequestView::Flush,
                task: TaskView::Exchanging(Exchange::Flushing { written, expected }),
                notify: None,
            },
            _ => finish(Err(Fault::write_failed(outcome.cause()))),
        },
        Exchange::Flushing { written, expected } => match outcome {
            OutcomeView::Done => if written == expected {
                StepView::Perform {
                    request: RequestView::ReadLine,
                    task: TaskView::Exchanging(Exchange::Reading),
                    notify: None,
                }
            } else {
                finish(Err(Fault::short_write(written as nat, expected as nat)))
            },
            _ => finish(Err(Fault::write_failed(outcome.cause()))),
        },
        Exchange::Reading => match outcome {
            OutcomeView::Line(bytes) => match read_reply(Ok(bytes)) {
                Ok(payload) => finish(Ok(StatusView::Acknowledged(payload))),
                Err(fault) => finish(Err(fault)),
            },
            _ => finish(Err(Fault::read_failed(outcome.cause()))),
        },
    }
}

impl<H> Session<H> {
    /// If a connection stands, it is to the port last asked for.
    pub open spec fn consistent(self) -> bool {
        self.connection matches Some(link) ==> link.port_name == self.port
    }

    /// A connection to the named port stands.
    pub open spec fn connected_to(self, port_name: Seq<char>) -> bool {
        self.connection matches Some(link) && link.port_name == port_name
    }

    /// The connection stands and its port is among those listed.
    pub open spec fn valid_against(self, inventory: Seq<PortDescriptor>) -> bool {
        self.connection matches Some(link) && exists|i: int|
            0 <= i < inventory.len() && (#[trigger] inventory[i]).port_name == link.port_name
    }

    /// The step that opens the named port with this session's settings.
    pub open spec fn opening(self, port_name: Seq<char>, goal: GoalView) -> StepView {
        StepView::Perform {
            request: RequestView::Open {
                port_name,
                baud_rate: self.baud_rate,
                timeout_ms: self.open_timeout_ms,
            },
            task: TaskView::Opening { port_name, goal },
            notify: None,
        }
    }

    /// The name of the port that the connection is to.
    pub open spec fn get_connection(self) -> Result<Seq<char>, Fault> {
        match self.connection {
            Some(link) => Ok(link.port_name),
            None => Err(Fault::not_connected()),
        }
    }

    /// A request for the port that is open already ends at once; any other port is
    /// opened.
    pub open spec fn connect(self, port_name: Seq<char>) -> StepView {
        if self.connected_to(port_name) {
            finish(Ok(StatusView::AlreadyConnected))
        } else {
            self.opening(port_name, GoalView::Report)
        }
    }

    /// A session that is valid is left alone; any other is repaired by opening the port
    /// last asked for, whatever connection stands.
    pub open spec fn validate_connection(self, inventory: Seq<PortDescriptor>) -> StepView {
        if self.valid_against(inventory) {
            finish(Ok(StatusView::SessionValid))
        } else {
            self.opening(self.port, GoalView::Report)
        }
    }

    /// A write goes out at once over a valid session; any other session is repaired
    /// first.
    pub open spec fn write(self, inventory: Seq<PortDescriptor>, content: Seq<char>) -> StepView {
        if self.valid_against(inventory) {
            send(encode_utf8(content), None)
        } else {
            self.opening(self.port, GoalView::Send { bytes: encode_utf8(content) })
        }
    }

    /// The DTR line is driven only where a connection stands.
    pub open spec fn dtr(self, level: bool) -> StepView {
        if self.connection is Some {
            StepView::Perform {
                request: RequestView::SetDtr { level },
                task: TaskView::Toggling,
                notify: None,
            }
        } else {
            finish(Err(Fault::not_connected()))
        }
    }

    /// The session without its connection.
    pub open spec fn disconnected(self) -> Session<H> {
        Session { connection: None, ..self }
    }

    /// Dropping a connection is told to subscribers; without one there is nothing to
    /// do and nothing to tell.
    pub open spec fn drop_connection(self) -> StepView {
        if self.connection is Some {
            StepView::Finish {
                reply: Ok(StatusView::Disconnected),
                notify: Some(Event::Disconnected),
            }
        } else {
            finish(Ok(StatusView::AlreadyDisconnected))
        }
    }

    /// The session once `outcome` has answered `task`. A port that was opened becomes
    /// the connection, in place of any other, and the port asked for; a DTR line that
    /// could not be raised on it costs the connection. Nothing else touches the session.
    pub open spec fn resumed(self, task: TaskView, outcome: OutcomeView<H>) -> Session<H> {
        match task {
            TaskView::Opening { port_name, goal } => match outcome {
                OutcomeView::Opened(handle) => Session {
                    port: port_name,
                    connection: Some(Link { handle, port_name, baud_rate: self.baud_rate }),
                    ..self
                },
                _ => self,
            },
            TaskView::Booting { goal } => match outcome {
                OutcomeView::Done => self,
                _ => self.disconnected(),
            },
            _ => self,
        }
    }

    /// What follows once `outcome` has answered `task`.
    ///
    /// A port that was opened has DTR raised on it next; one that was not ends the
    /// command, and so does a DTR line that could not be raised. After DTR comes the
    /// settle delay, which cannot fail: the wait is over whatever the driver reports.
    /// Then subscribers are told of the connection and the command does what the
    /// connection was opened for, unless no connection stands any more. A write goes on
    /// as `write_step` says, and a DTR line driven on request ends the command either
    /// way.
    pub open spec fn resume(self, task: TaskView, outcome: OutcomeView<H>) -> StepView {
        match task {
            TaskView::Opening { port_name, goal } => match outcome {
                OutcomeView::Opened(handle) => StepView::Perform {
                    request: RequestView::SetDtr { level: true },
                    task: TaskView::Booting { goal },
                    notify: None,
                },
                _ => finish(Err(Fault::open_failed(outcome.cause()))),
            },
            TaskView::Booting { goal } => match outcome {
                OutcomeView::Done => StepView::Perform {
                    request: RequestView::Settle { delay_ms: self.settle_delay_ms },
                    task: TaskView::Settling { goal },
                    notify: None,
                },
                _ => finish(Err(Fault::boot_failed(outcome.cause()))),
            },
            TaskView::Settling { goal } => if self.connection is None {
                finish(Err(Fault::not_connected()))
            } else {
                match goal {
                    GoalView::Report => StepView::Finish {
                        reply: Ok(StatusView::Connected),
                        notify: Some(Event::Connected),
                    },
                    GoalView::Send { bytes } => send(bytes, Some(Event::Connected)),
                }
            },
            TaskView::Exchanging(exchange) => write_step(exchange, outcome),
            TaskView::Toggling => match outcome {
                OutcomeView::Done => finish(Ok(StatusView::DtrSent)),
                _ => finish(Err(Fault::boot_failed(outcome.cause()))),
            },
        }
    }
}

impl GoalView {
    /// The pieces of I/O that may still be asked for once the connection stands.
    pub open spec fn steps_left(self) -> nat {
        match self {
            GoalView::Report => 0,
            GoalView::Send { .. } => 3,
        }
    }
}

impl TaskView {
    /// The pieces of I/O that a command may still ask for, the one under way included.
    pub open spec fn steps_left(self) -> nat {
        match self {
            TaskView::Opening { goal, .. } => 3 + goal.steps_left(),
            TaskView::Booting { goal } => 2 + goal.steps_left(),
            TaskView::Settling { goal } => 1 + goal.steps_left(),
            TaskView::Exchanging(Exchange::Sending { .. }) => 3,
            TaskView::Exchanging(Exchange::Flushing { .. }) => 2,
            TaskView::Exchanging(Exchange::Reading) => 1,
            TaskView::Toggling => 1,
        }
    }
}

impl RequestView {
    /// Whether the request is made of the port that is open.
    pub open spec fn needs_port(self) -> bool {
        !(self is Open) && !(self is Settle)
    }
}

} // verus!
