//! The commands of a session, and the values that they take and give.
//!
//! No command touches a device. Each returns a `Step`: either the I/O that the driver
//! is to perform, with the `Task` to resume once it is done, or the reply. `resume`
//! takes the outcome of the I/O and returns the next step.

use vstd::prelude::*;
use vstd::string::*;

use crate::model::{dtr_reply, read_reply, write_step, Fault, PortDescriptor};
use crate::state::{Connection, SerialState};
use crate::step::{Event, Exchange, Goal, Outcome, Request, Status, Step, Task};
use crate::text::{decimal_text, strip_newlines, utf8_text};

verus! {

/// The category of a failure.
#[derive(Debug, Clone, Copy, PartialEq, Eq, Structural)]
pub enum SerialErrors {
    /// The payload could not be written in full.
    Write,
    /// No reply could be read, or the device answered with a failure token.
    Read,
    /// The DTR line could not be driven.
    Boot,
    /// No connection stands, or none could be opened.
    Connection,
}

/// One serial port as the host sees it.
#[derive(Debug, Clone, PartialEq, Eq)]
pub struct SerialPort {
    pub port_name: String,
    /// The USB product string; empty for a port that is not USB or names no product.
    pub port_info: String,
}

/// A failure, with its category and a message for the host.
#[derive(Debug, Clone, PartialEq, Eq)]
pub struct SerialError {
    pub error_type: SerialErrors,
    pub message: String,
}

impl View for SerialPort {
    type V = PortDescriptor;

    open spec fn view(&self) -> PortDescriptor {
        PortDescriptor { port_name: self.port_name@, port_info: self.port_info@ }
    }
}

impl View for SerialError {
    type V = Fault;

    open spec fn view(&self) -> Fault {
        Fault { error_type: self.error_type, message: self.message@ }
    }
}

/// The descriptors that a list of ports stands for, in order.
pub open spec fn descriptors(ports: Seq<SerialPort>) -> Seq<PortDescriptor> {
    ports.map_values(|port: SerialPort| port@)
}

impl SerialPort {
    /// A copy of this descriptor.
    pub fn duplicate(&self) -> (copy: SerialPort)
        ensures
            copy@ == self@,
    {
        SerialPort { port_name: self.port_name.clone(), port_info: self.port_info.clone() }
    }

    /// Whether two descriptors agree in name and in product string.
    pub fn same_as(&self, other: &SerialPort) -> (same: bool)
        ensures
            same == (self@ == other@),
    {
        self.port_name == other.port_name && self.port_info == other.port_info
    }
}

impl SerialError {
    /// No connection stands.
    pub fn not_connected() -> (error: SerialError)
        ensures
            error@ == Fault::not_connected(),
    {
        SerialError {
            error_type: SerialErrors::Connection,
            message: String::from_str("No connection found"),
        }
    }

    /// The port could not be opened, for the given cause.
    pub fn open_failed(cause: &String) -> (error: SerialError)
        ensures
            error@ == Fault::open_failed(cause@),
    {
        let mut message = String::from_str("Couldn't open serial port: ");
        message.append(cause.as_str());
        SerialError { error_type: SerialErrors::Connection, message }
    }

    /// The DTR line could not be driven, for the given cause.
    pub fn boot_failed(cause: &String) -> (error: SerialError)
        ensures
            error@ == Fault::boot_failed(cause@),
    {
        let mut message = String::from_str("Ran into issue sending DTR signal ");
        message.append(cause.as_str());
        SerialError { error_type: SerialErrors::Boot, message }
    }

    /// The transport refused the write or the flush, for the given cause.
    pub fn write_failed(cause: String) -> (error: SerialError)
        ensures
            error@ == Fault::write_failed(cause@),
    {
        SerialError { error_type: SerialErrors::Write, message: cause }
    }

    /// The transport took `written` bytes of a payload of `expected` bytes.
    pub fn short_write(written: usize, expected: usize) -> (error: SerialError)
        ensures
            error@ == Fault::short_write(written as nat, expected as nat),
    {
        let mut message = String::from_str("Incomplete write only wrote ");
        message.append(decimal_text(written).as_str());
        message.append(" bytes of ");
        message.append(decimal_text(expected).as_str());
        SerialError { error_type: SerialErrors::Write, message }
    }

    /// No reply could be read, or the reply was the failure token `cause`.
    pub fn read_failed(cause: String) -> (error: SerialError)
        ensures
            error@ == Fault::read_failed(cause@),
    {
        SerialError { error_type: SerialErrors::Read, message: cause }
    }

    /// The reply was not text.
    pub fn undecodable() -> (error: SerialError)
        ensures
            error@ == Fault::undecodable(),
    {
        SerialError {
            error_type: SerialErrors::Read,
            message: String::from_str("Reply is not valid UTF-8"),
        }
    }
}

/// What a reply stands for.
pub open spec fn reply_view(reply: Result<String, SerialError>) -> Result<Seq<char>, Fault> {
    match reply {
        Ok(text) => Ok(text@),
        Err(error) => Err(error@),
    }
}

/// What the outcome of a read stands for.
pub open spec fn received_view(received: Result<Vec<u8>, String>) -> Result<Seq<u8>, Seq<char>> {
    match received {
        Ok(bytes) => Ok(bytes@),
        Err(cause) => Err(cause@),
    }
}

/// What the outcome of driving the DTR line stands for.
pub open spec fn toggled_view(toggled: Result<(), String>) -> Result<(), Seq<char>> {
    match toggled {
        Ok(_) => Ok(()),
        Err(cause) => Err(cause@),
    }
}

/// The ports last published, for the host.
pub fn find_available_ports(inventory: &Vec<SerialPort>) -> (ports: Vec<SerialPort>)
    ensures
        descriptors(ports@) == descriptors(inventory@),
{
    let mut ports: Vec<SerialPort> = Vec::new();
    let mut i: usize = 0;
    while i < inventory.len()
        invariant
            i <= inventory.len(),
            ports@.len() == i,
            forall|j: int| 0 <= j < i ==> (#[trigger] ports@[j])@ == inventory@[j]@,
        decreases inventory.len() - i,
    {
        ports.push(inventory[i].duplicate());
        i += 1;
    }
    ports
}

/// Turns what a read brought into the reply of the device. `received` holds the bytes
/// read up to and including the line feed, or the cause for which the read failed.
///
/// The bytes are decoded as UTF-8 and every line feed is removed. `ERROR` and `nok`
/// are the device's way of saying that it failed: they come back as a read error with
/// the token as its message. Bytes that are not UTF-8 are a read error too.
pub fn read_serial(received: Result<Vec<u8>, String>) -> (reply: Result<String, SerialError>)
    ensures
        reply_view(reply) == read_reply(received_view(received)),
{
    match received {
        Err(cause) => Err(SerialError::read_failed(cause)),
        Ok(bytes) => match utf8_text(bytes.as_slice()) {
            None => Err(SerialError::undecodable()),
            Some(text) => {
                let payload = strip_newlines(text);
                if payload == String::from_str("ERROR") || payload == String::from_str("nok") {
                    Err(SerialError::read_failed(payload))
                } else {
                    Ok(payload)
                }
            },
        },
    }
}

/// Turns the outcome of driving the DTR line into a reply.
pub fn send_dtr(toggled: Result<(), String>) -> (reply: Result<String, SerialError>)
    ensures
        reply_view(reply) == dtr_reply(toggled_view(toggled)),
{
    match toggled {
        Ok(_) => Ok(Status::DtrSent.message()),
        Err(cause) => Err(SerialError::boot_failed(&cause)),
    }
}

/// Takes a write one step on, given how the last piece of I/O went.
///
/// The payload is handed to the port once. Whatever the port took is flushed; then
/// the count decides. A count short of the payload ends the write with an error that
/// names both counts, and nothing is read; the payload is not sent again, since a
/// device would take the second half of a frame for a frame. After a full write the
/// reply is read and judged as `read_serial` does.
pub fn write_serial<H>(exchange: Exchange, outcome: Outcome<H>) -> (step: Step)
    ensures
        step@ == write_step(exchange, outcome@),
{
    match exchange {
        Exchange::Sending { expected } => match outcome {
            Outcome::Sent(written) => Step::Perform {
                request: Request::Flush,
                task: Task::Exchanging(Exchange::Flushing { written, expected }),
                notify: None,
            },
            other => Step::Finish {
                reply: Err(SerialError::write_failed(other.into_cause())),
                notify: None,
            },
        },
        Exchange::Flushing { written, expected } => match outcome {
            Outcome::Done => if written == expected {
                Step::Perform {
                    request: Request::ReadLine,
                    task: Task::Exchanging(Exchange::Reading),
                    notify: None,
                }
            } else {
                Step::Finish { reply: Err(SerialError::short_write(written, expected)), notify: None }
            },
            other => Step::Finish {
                reply: Err(SerialError::write_failed(other.into_cause())),
                notify: None,
            },
        },
        Exchange::Reading => {
            let received = match outcome {
                Outcome::Line(bytes) => Ok(bytes),
                other => Err(other.into_cause()),
            };
            match read_serial(received) {
                Ok(payload) => Step::Finish { reply: Ok(Status::Acknowledged(payload)), notify: None },
                Err(error) => Step::Finish { reply: Err(error), notify: None },
            }
        },
    }
}

/// How driving the DTR line went, as an outcome tells it.
fn toggled<H>(outcome: Outcome<H>) -> (toggled: Result<(), String>)
    ensures
        toggled_view(toggled) == match outcome@ {
            crate::model::OutcomeView::Done => Ok::<(), Seq<char>>(()),
            _ => Err(outcome@.cause()),
        },
{
    match outcome {
        Outcome::Done => Ok(()),
        other => Err(other.into_cause()),
    }
}

/// The step that hands `bytes` to the port.
fn sending(bytes: Vec<u8>, notify: Option<Event>) -> (step: Step)
    ensures
        step@ == crate::model::send(bytes@, notify),
{
    let expected = bytes.len();
    Step::Perform {
        request: Request::Send { bytes },
        task: Task::Exchanging(Exchange::Sending { expected }),
        notify,
    }
}

/// The name of the port that the connection is to.
pub fn get_connection<H>(state: &SerialState<H>) -> (name: Result<String, SerialError>)
    ensures
        reply_view(name) == state@.get_connection(),
{
    match &state.connection {
        Some(connection) => Ok(connection.port_name.clone()),
        None => Err(SerialError::not_connected()),
    }
}

/// Drops the connection, if one stands. Dropping twice is as good as once: the second
/// time there is nothing to do, and that is no error.
pub fn drop_connection<H>(state: &mut SerialState<H>) -> (step: Step)
    ensures
        step@ == old(state)@.drop_connection(),
        final(state)@ == old(state)@.disconnected(),
        final(state)@.consistent(),
{
    match state.connection.take() {
        Some(_) => Step::Finish { reply: Ok(Status::Disconnected), notify: Some(Event::Disconnected) },
        None => Step::Finish { reply: Ok(Status::AlreadyDisconnected), notify: None },
    }
}

/// Asks for a connection to the named port. Where that port is open already the
/// command ends at once, with no I/O. Otherwise the port is to be opened with the
/// session's baud rate and open timeout; the session changes only once it is.
pub fn connect<H>(port_name: String, state: &SerialState<H>) -> (step: Step)
    ensures
        step@ == state@.connect(port_name@),
{
    let open_already = match &state.connection {
        Some(connection) => connection.port_name == port_name,
        None => false,
    };
    if open_already {
        Step::Finish { reply: Ok(Status::AlreadyConnected), notify: None }
    } else {
        state.opening(port_name, Goal::Report)
    }
}

/// Sends `content` to the device and reads its reply. The session is checked first,
/// as `validate_connection` does; where it has to be repaired, the write goes out over
/// the new connection, and a repair that fails ends the write with its error.
pub fn write<H>(state: &SerialState<H>, inventory: &Vec<SerialPort>, content: String) -> (step:
    Step)
    ensures
        step@ == state@.write(descriptors(inventory@), content@),
{
    let bytes = content.as_str().as_bytes_vec();
    if state.is_valid(inventory) {
        sending(bytes, None)
    } else {
        state.opening(state.port.clone(), Goal::Send { bytes })
    }
}

/// Drives the DTR line of the connection to `level`.
pub fn dtr<H>(state: &SerialState<H>, level: bool) -> (step: Step)
    ensures
        step@ == state@.dtr(level),
{
    if state.connection.is_some() {
        Step::Perform { request: Request::SetDtr { level }, task: Task::Toggling, notify: None }
    } else {
        Step::Finish { reply: Err(SerialError::not_connected()), notify: None }
    }
}

/// Takes a command one step on, given how the I/O that it asked for went.
///
/// A port that was opened becomes the connection at once, in place of any other, and
/// the port asked for; then DTR is raised on it. If that fails the connection is
/// dropped again. If it succeeds the device is given the settle delay to restart, the
/// subscribers are told, and the command goes on to what the connection was opened
/// for. An outcome that does not answer the request counts as a failure of the
/// request; the settle delay alone cannot fail.
pub fn resume<H>(state: &mut SerialState<H>, task: Task, outcome: Outcome<H>) -> (step: Step)
    ensures
        step@ == old(state)@.resume(task@, outcome@),
        final(state)@ == old(state)@.resumed(task@, outcome@),
        old(state)@.consistent() ==> final(state)@.consistent(),
{
    match task {
        Task::Opening { port_name, goal } => match outcome {
            Outcome::Opened(handle) => {
                state.port = port_name.clone();
                state.connection = Some(
                    Connection { handle, port_name, baud_rate: state.baud_rate },
                );
                Step::Perform {
                    request: Request::SetDtr { level: true },
                    task: Task::Booting { goal },
                    notify: None,
                }
            },
            other => Step::Finish {
                reply: Err(SerialError::open_failed(&other.into_cause())),
                notify: None,
            },
        },
        Task::Booting { goal } => match send_dtr(toggled(outcome)) {
            Ok(_) => Step::Perform {
                request: Request::Settle { delay_ms: state.settle_delay_ms },
                task: Task::Settling { goal },
                notify: None,
            },
            Err(error) => {
                state.connection = None;
                Step::Finish { reply: Err(error), notify: None }
            },
        },
        Task::Settling { goal } => if state.connection.is_none() {
            Step::Finish { reply: Err(SerialError::not_connected()), notify: None }
        } else {
            match goal {
                Goal::Report => Step::Finish {
                    reply: Ok(Status::Connected),
                    notify: Some(Event::Connected),
                },
                Goal::Send { bytes } => sending(bytes, Some(Event::Connected)),
            }
        },
        Task::Exchanging(exchange) => write_serial(exchange, outcome),
        Task::Toggling => match send_dtr(toggled(outcome)) {
            Ok(_) => Step::Finish { reply: Ok(Status::DtrSent), notify: None },
            Err(error) => Step::Finish { reply: Err(error), notify: None },
        },
    }
}

} // verus!
