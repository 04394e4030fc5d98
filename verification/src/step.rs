//! The vocabulary between the session and its driver. The session never touches a
//! device: it names the I/O to perform, and the driver reports how it went.

use vstd::prelude::*;
use vstd::string::*;

use crate::command::SerialError;
use crate::model::{
    text_of, GoalView, OutcomeView, RequestView, StatusView, StepView, TaskView,
};

verus! {

/// What subscribers are told of.
#[derive(Debug, Clone, Copy, PartialEq, Eq, Structural)]
pub enum Event {
    /// A connection stands.
    Connected,
    /// The connection was dropped.
    Disconnected,
    /// The inventory of ports changed.
    DeviceListUpdated,
}

/// How a command ended when it did not fail.
#[derive(Debug, Clone, PartialEq, Eq)]
pub enum Status {
    /// A port was opened and the device was given time to restart.
    Connected,
    /// The requested port was open already; nothing was done.
    AlreadyConnected,
    /// The connection was dropped.
    Disconnected,
    /// There was no connection to drop.
    AlreadyDisconnected,
    /// The connection stands and its device is still listed.
    SessionValid,
    /// The DTR line was driven.
    DtrSent,
    /// The device acknowledged a write with this payload.
    Acknowledged(String),
}

/// One piece of I/O for the driver to perform.
#[derive(Debug, Clone, PartialEq, Eq)]
pub enum Request {
    /// Open the named port.
    Open { port_name: String, baud_rate: u32, timeout_ms: u64 },
    /// Drive the DTR line of the open port.
    SetDtr { level: bool },
    /// Wait while the device restarts.
    Settle { delay_ms: u64 },
    /// Hand these bytes to the open port, once.
    Send { bytes: Vec<u8> },
    /// Flush the open port.
    Flush,
    /// Read from the open port up to and including the next line feed, byte by byte.
    ReadLine,
}

/// How a piece of I/O went.
#[derive(Debug, Clone, PartialEq, Eq)]
pub enum Outcome<H> {
    /// The port was opened; this is its handle.
    Opened(H),
    /// The port took this many bytes.
    Sent(usize),
    /// These bytes were read.
    Line(Vec<u8>),
    /// The DTR line was driven, the wait is over, or the port was flushed.
    Done,
    /// The I/O failed, for this cause.
    Failed(String),
}

/// What a connection is being opened for.
#[derive(Debug, Clone, PartialEq, Eq)]
pub enum Goal {
    /// To report that it stands.
    Report,
    /// To send these bytes over it.
    Send { bytes: Vec<u8> },
}

/// Where a write stands while the driver is at work.
#[derive(Debug, Clone, Copy, PartialEq, Eq, Structural)]
pub enum Exchange {
    /// The payload of `expected` bytes was handed to the port.
    Sending { expected: usize },
    /// The port took `written` bytes and is being flushed.
    Flushing { written: usize, expected: usize },
    /// The payload is out; the reply is being read.
    Reading,
}

/// Where a command stands while the driver is at work.
#[derive(Debug, Clone, PartialEq, Eq)]
pub enum Task {
    /// The named port is being opened.
    Opening { port_name: String, goal: Goal },
    /// DTR is being raised on the port just opened.
    Booting { goal: Goal },
    /// The device is restarting. The wait cannot fail: it is over whatever is reported.
    Settling { goal: Goal },
    /// A write is under way.
    Exchanging(Exchange),
    /// DTR is being driven on request.
    Toggling,
}

/// What a command asks of its driver next.
#[derive(Debug, PartialEq, Eq)]
pub enum Step {
    /// Tell subscribers of `notify`, perform `request`, and resume `task` with the
    /// outcome.
    Perform { request: Request, task: Task, notify: Option<Event> },
    /// Tell subscribers of `notify`; the command has ended with `reply`.
    Finish { reply: Result<Status, SerialError>, notify: Option<Event> },
}

impl View for Status {
    type V = StatusView;

    open spec fn view(&self) -> StatusView {
        match self {
            Status::Connected => StatusView::Connected,
            Status::AlreadyConnected => StatusView::AlreadyConnected,
            Status::Disconnected => StatusView::Disconnected,
            Status::AlreadyDisconnected => StatusView::AlreadyDisconnected,
            Status::SessionValid => StatusView::SessionValid,
            Status::DtrSent => StatusView::DtrSent,
            Status::Acknowledged(payload) => StatusView::Acknowledged(payload@),
        }
    }
}

impl View for Request {
    type V = RequestView;

    open spec fn view(&self) -> RequestView {
        match self {
            Request::Open { port_name, baud_rate, timeout_ms } => RequestView::Open {
                port_name: port_name@,
                baud_rate: *baud_rate,
                timeout_ms: *timeout_ms,
            },
            Request::SetDtr { level } => RequestView::SetDtr { level: *level },
            Request::Settle { delay_ms } => RequestView::Settle { delay_ms: *delay_ms },
            Request::Send { bytes } => RequestView::Send { bytes: bytes@ },
            Request::Flush => RequestView::Flush,
            Request::ReadLine => RequestView::ReadLine,
        }
    }
}

impl<H> View for Outcome<H> {
    type V = OutcomeView<H>;

    open spec fn view(&self) -> OutcomeView<H> {
        match self {
            Outcome::Opened(handle) => OutcomeView::Opened(*handle),
            Outcome::Sent(written) => OutcomeView::Sent(*written),
            Outcome::Line(bytes) => OutcomeView::Line(bytes@),
            Outcome::Done => OutcomeView::Done,
            Outcome::Failed(cause) => OutcomeView::Failed(cause@),
        }
    }
}

impl View for Goal {
    type V = GoalView;

    open spec fn view(&self) -> GoalView {
        match self {
            Goal::Report => GoalView::Report,
            Goal::Send { bytes } => GoalView::Send { bytes: bytes@ },
        }
    }
}

impl View for Task {
    type V = TaskView;

    open spec fn view(&self) -> TaskView {
        match self {
            Task::Opening { port_name, goal } => TaskView::Opening {
                port_name: port_name@,
                goal: goal@,
            },
            Task::Booting { goal } => TaskView::Booting { goal: goal@ },
            Task::Settling { goal } => TaskView::Settling { goal: goal@ },
            Task::Exchanging(exchange) => TaskView::Exchanging(*exchange),
            Task::Toggling => TaskView::Toggling,
        }
    }
}

impl View for Step {
    type V = StepView;

    open spec fn view(&self) -> StepView {
        match self {
            Step::Perform { request, task, notify } => StepView::Perform {
                request: request@,
                task: task@,
                notify: *notify,
            },
            Step::Finish { reply, notify } => StepView::Finish {
                reply: match reply {
                    Ok(status) => Ok(status@),
                    Err(error) => Err(error@),
                },
                notify: *notify,
            },
        }
    }
}

impl Event {
    /// The name under which the event is published.
    pub fn name(&self) -> (name: &'static str)
        ensures
            name@ == self.spec_name(),
    {
        match self {
            Event::Connected => "CONNECTED",
            Event::Disconnected => "DISCONNECTED",
            Event::DeviceListUpdated => "DEVICE_LIST_UPDATED",
        }
    }

    pub open spec fn spec_name(&self) -> Seq<char> {
        match self {
            Event::Connected => "CONNECTED"@,
            Event::Disconnected => "DISCONNECTED"@,
            Event::DeviceListUpdated => "DEVICE_LIST_UPDATED"@,
        }
    }
}

impl Status {
    /// The status in words, for the host; for an acknowledged write, the payload.
    pub fn message(&self) -> (message: String)
        ensures
            message@ == text_of(self@),
    {
        match self {
            Status::Connected => String::from_str("New connection established"),
            Status::AlreadyConnected => String::from_str("Already connected"),
            Status::Disconnected => String::from_str("Dropped connection"),
            Status::AlreadyDisconnected => String::from_str("Nothing to disconnect"),
            Status::SessionValid => String::from_str("Old session is good"),
            Status::DtrSent => String::from_str("DTR signal successfully sent"),
            Status::Acknowledged(payload) => payload.clone(),
        }
    }
}

impl<H> Outcome<H> {
    /// Why the I/O did not bring what was asked for: the cause that the driver gave,
    /// or that the outcome answers another request.
    pub fn into_cause(self) -> (cause: String)
        ensures
            cause@ == self@.cause(),
    {
        match self {
            Outcome::Failed(cause) => cause,
            _ => String::from_str("Unexpected outcome"),
        }
    }
}

} // verus!
