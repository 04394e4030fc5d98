//! What follows from the model, whatever the driver and the device do.

use vstd::prelude::*;
use vstd::utf8::*;

use crate::model::{
    finish, is_sentinel, read_reply, send, write_step, Fault, GoalView, OutcomeView,
    PortDescriptor, RequestView, Session, StatusView, StepView, TaskView,
};
use crate::state::Settings;
use crate::step::{Event, Exchange};
use crate::text::{
    decimal, is_digit, lemma_decimal_reads_back, lemma_without_newlines_push, without_newlines,
};
use crate::watcher::fresh_inventory;

verus! {

/// A text that holds no line feed loses nothing when its line feeds are removed, and a
/// line feed at its end goes alone.
pub proof fn lemma_line_feed_goes_alone(body: Seq<char>)
    requires
        !body.contains('\n'),
    ensures
        without_newlines(body) == body,
        without_newlines(body.push('\n')) == body,
    decreases body.len(),
{
    if body.len() == 0 {
        reveal(Seq::filter);
    } else {
        let front = body.drop_last();
        lemma_line_feed_goes_alone(front);
        assert(front.push(body.last()) =~= body);
        lemma_without_newlines_push(front, body.last());
    }
    lemma_without_newlines_push(body, '\n');
}

/// The session keeps to one port: a connection, where one stands, is to the port last
/// asked for. No outcome of any task and no disconnect breaks this.
pub proof fn lemma_connection_is_to_the_port_asked_for<H>(
    session: Session<H>,
    task: TaskView,
    outcome: OutcomeView<H>,
)
    requires
        session.consistent(),
    ensures
        session.resumed(task, outcome).consistent(),
        session.disconnected().consistent(),
{
}

/// A connect that runs to its end opens the port once: it asks for the open, then for
/// DTR, then for the settle delay, and ends by telling subscribers. A second connect
/// to the same port then ends at once, asking for no I/O and changing nothing.
pub proof fn lemma_second_connect_opens_nothing<H>(
    session: Session<H>,
    port_name: Seq<char>,
    handle: H,
)
    requires
        !session.connected_to(port_name),
    ensures
        ({
            let opening = TaskView::Opening { port_name, goal: GoalView::Report };
            let booting = TaskView::Booting { goal: GoalView::Report };
            let settling = TaskView::Settling { goal: GoalView::Report };
            let opened = session.resumed(opening, OutcomeView::Opened(handle));
            let booted = opened.resumed(booting, OutcomeView::Done);
            let settled = booted.resumed(settling, OutcomeView::Done);
            &&& session.connect(port_name) == session.opening(port_name, GoalView::Report)
            &&& session.resume(opening, OutcomeView::Opened(handle)) == (StepView::Perform {
                request: RequestView::SetDtr { level: true },
                task: booting,
                notify: None,
            })
            &&& opened.resume(booting, OutcomeView::Done) == (StepView::Perform {
                request: RequestView::Settle { delay_ms: session.settle_delay_ms },
                task: settling,
                notify: None,
            })
            &&& booted.resume(settling, OutcomeView::Done) == (StepView::Finish {
                reply: Ok(StatusView::Connected),
                notify: Some(Event::Connected),
            })
            &&& settled.connected_to(port_name)
            &&& settled.port == port_name
            &&& settled.connect(port_name) == finish(Ok(StatusView::AlreadyConnected))
        }),
{
}

/// Whatever session a connect to the open port meets, it ends at once.
pub proof fn lemma_connect_to_the_open_port_ends_at_once<H>(
    session: Session<H>,
    port_name: Seq<char>,
)
    requires
        session.connected_to(port_name),
    ensures
        session.connect(port_name) == finish(Ok(StatusView::AlreadyConnected)),
{
}

/// A port that cannot be opened leaves the session as it was, and a DTR line that
/// cannot be raised leaves it without a connection.
pub proof fn lemma_failed_connect_installs_nothing<H>(
    session: Session<H>,
    port_name: Seq<char>,
    goal: GoalView,
    handle: H,
    cause: Seq<char>,
)
    ensures
        ({
            let opening = TaskView::Opening { port_name, goal };
            let booting = TaskView::Booting { goal };
            let opened = session.resumed(opening, OutcomeView::Opened(handle));
            &&& session.resumed(opening, OutcomeView::Failed(cause)) == session
            &&& session.resume(opening, OutcomeView::Failed(cause)) == finish(
                Err(Fault::open_failed(cause)),
            )
            &&& opened.resumed(booting, OutcomeView::Failed(cause)).connection is None
            &&& opened.resume(booting, OutcomeView::Failed(cause)) == finish(
                Err(Fault::boot_failed(cause)),
            )
        }),
{
}

/// A write checks the session as `validate_connection` does. Where that finds the
/// session valid the payload goes out at once; where it asks for a port to be opened,
/// the write asks for the same, and sends once the connection stands.
pub proof fn lemma_write_validates_first<H>(
    session: Session<H>,
    inventory: Seq<PortDescriptor>,
    content: Seq<char>,
)
    ensures
        session.validate_connection(inventory) == finish(Ok(StatusView::SessionValid))
            ==> session.write(inventory, content) == send(encode_utf8(content), None),
        session.validate_connection(inventory) matches StepView::Perform { request, .. }
            ==> session.write(inventory, content) == (StepView::Perform {
            request,
            task: TaskView::Opening {
                port_name: session.port,
                goal: GoalView::Send { bytes: encode_utf8(content) },
            },
            notify: None,
        }),
{
}

/// The reply to a line of text. A device that sends `body` and a line feed is
/// understood to say `body`; where `body` is a failure token that is a read error
/// with the token as its message, and otherwise it is the reply.
pub proof fn lemma_reply_is_the_line_without_its_end(body: Seq<char>)
    requires
        !body.contains('\n'),
    ensures
        read_reply(Ok(encode_utf8(body.push('\n')))) == if is_sentinel(body) {
            Err::<Seq<char>, Fault>(Fault::read_failed(body))
        } else {
            Ok(body)
        },
{
    let line = body.push('\n');
    encode_utf8_valid_utf8(line);
    encode_utf8_decode_utf8(line);
    lemma_line_feed_goes_alone(body);
}

/// A write that the device echoes is acknowledged with the payload less its line feed.
/// The payload is `body` and a line feed; the port takes all of it; the line read is
/// the payload again. But for a `body` that is itself a failure token, the write ends
/// with `body` as its acknowledgement.
pub proof fn lemma_echoed_write_is_acknowledged<H>(body: Seq<char>)
    requires
        !body.contains('\n'),
        !is_sentinel(body),
        encode_utf8(body.push('\n')).len() <= usize::MAX,
    ensures
        ({
            let payload = encode_utf8(body.push('\n'));
            let length = payload.len() as usize;
            let sending = Exchange::Sending { expected: length };
            let flushing = Exchange::Flushing { written: length, expected: length };
            &&& send(payload, None) == (StepView::Perform {
                request: RequestView::Send { bytes: payload },
                task: TaskView::Exchanging(sending),
                notify: None,
            })
            &&& write_step::<H>(sending, OutcomeView::Sent(length)) == (StepView::Perform {
                request: RequestView::Flush,
                task: TaskView::Exchanging(flushing),
                notify: None,
            })
            &&& write_step::<H>(flushing, OutcomeView::Done) == (StepView::Perform {
                request: RequestView::ReadLine,
                task: TaskView::Exchanging(Exchange::Reading),
                notify: None,
            })
            &&& write_step::<H>(Exchange::Reading, OutcomeView::Line(payload)) == finish(
                Ok(StatusView::Acknowledged(body)),
            )
        }),
{
    lemma_reply_is_the_line_without_its_end(body);
}

/// A port that takes fewer bytes than the payload holds, or more, ends the write once
/// it is flushed: the error names both counts, and no read is asked for.
pub proof fn lemma_short_write_reads_nothing<H>(written: usize, expected: usize)
    requires
        written != expected,
    ensures
        write_step::<H>(Exchange::Sending { expected }, OutcomeView::Sent(written)) == (
        StepView::Perform {
            request: RequestView::Flush,
            task: TaskView::Exchanging(Exchange::Flushing { written, expected }),
            notify: None,
        }),
        write_step::<H>(Exchange::Flushing { written, expected }, OutcomeView::Done) == finish(
            Err(Fault::short_write(written as nat, expected as nat)),
        ),
{
}

/// Where the counts of a short write stand in its message: after the opening words
/// the bytes taken, then the words between, then the bytes of the payload.
proof fn lemma_short_write_message_layout(written: nat, expected: nat)
    ensures
        ({
            let message = Fault::short_write(written, expected).message;
            let taken = decimal(written);
            let wanted = decimal(expected);
            &&& message.len() == 28 + taken.len() as int + 10 + wanted.len() as int
            &&& message.subrange(28, 28 + taken.len() as int) == taken
            &&& message[28 + taken.len() as int] == ' '
            &&& message.subrange(38 + taken.len() as int, message.len() as int) == wanted
        }),
{
    reveal_strlit("Incomplete write only wrote ");
    reveal_strlit(" bytes of ");
}

/// The message of a short write carries both counts: two short writes with the same
/// message took the same number of bytes of payloads of the same length.
pub proof fn lemma_short_write_names_both_counts(
    written: nat,
    expected: nat,
    other_written: nat,
    other_expected: nat,
)
    requires
        Fault::short_write(written, expected).message == Fault::short_write(
            other_written,
            other_expected,
        ).message,
    ensures
        written == other_written,
        expected == other_expected,
{
    let message = Fault::short_write(written, expected).message;
    let taken = decimal(written);
    let other_taken = decimal(other_written);
    lemma_short_write_message_layout(written, expected);
    lemma_short_write_message_layout(other_written, other_expected);
    lemma_decimal_reads_back(written);
    lemma_decimal_reads_back(other_written);
    lemma_decimal_reads_back(expected);
    lemma_decimal_reads_back(other_expected);
    if taken.len() < other_taken.len() {
        assert(message.subrange(28, 28 + other_taken.len() as int)[taken.len() as int]
            == message[28 + taken.len() as int]);
    }
    if other_taken.len() < taken.len() {
        assert(message.subrange(28, 28 + taken.len() as int)[other_taken.len() as int]
            == message[28 + other_taken.len() as int]);
    }
}

/// Dropping a connection that is not there is no error, and neither is doing so again:
/// after any disconnect, a disconnect finds nothing to do, tells nobody and changes
/// nothing.
pub proof fn lemma_disconnect_twice_is_once<H>(session: Session<H>)
    ensures
        session.drop_connection() matches StepView::Finish { reply: Ok(_), .. },
        session.connection is None ==> session.disconnected() == session,
        session.disconnected().drop_connection() == finish(Ok(StatusView::AlreadyDisconnected)),
        session.disconnected().disconnected() == session.disconnected(),
{
}

/// Every command ends. Each outcome either ends the command or leaves it with fewer
/// pieces of I/O to ask for; a command asks for six at most.
pub proof fn lemma_every_command_ends<H>(
    session: Session<H>,
    task: TaskView,
    outcome: OutcomeView<H>,
)
    ensures
        task.steps_left() <= 6,
        session.resume(task, outcome) matches StepView::Perform { task: next, .. }
            ==> next.steps_left() < task.steps_left(),
{
}

/// A command that ends with `Connected` leaves a connection standing, and tells
/// subscribers so; no step tells them of a connection otherwise.
pub proof fn lemma_connected_means_a_connection_stands<H>(
    session: Session<H>,
    task: TaskView,
    outcome: OutcomeView<H>,
)
    ensures
        ({
            let step = session.resume(task, outcome);
            let after = session.resumed(task, outcome);
            &&& step matches StepView::Finish { reply: Ok(StatusView::Connected), notify }
                ==> after.connection is Some && notify == Some(Event::Connected)
            &&& step matches StepView::Finish { notify: Some(_), .. } ==> task is Settling
                && after.connection is Some
            &&& step matches StepView::Perform { notify: Some(_), .. } ==> task is Settling
                && after.connection is Some
        }),
{
}

/// The port is there when it is needed. A command that begins by asking something of
/// the open port found a connection, and so does a command that goes on to raise DTR
/// or to send.
pub proof fn lemma_requests_meet_a_connection<H>(
    session: Session<H>,
    inventory: Seq<PortDescriptor>,
    content: Seq<char>,
    level: bool,
    task: TaskView,
    outcome: OutcomeView<H>,
)
    ensures
        session.write(inventory, content) matches StepView::Perform { request, .. }
            && request.needs_port() ==> session.connection is Some,
        session.dtr(level) matches StepView::Perform { request, .. } && request.needs_port()
            ==> session.connection is Some,
        session.resume(task, outcome) matches StepView::Perform { request, .. } && (request
            is SetDtr || request is Send) ==> session.resumed(task, outcome).connection is Some,
{
}

/// A host gets the baud rate that it configured, whatever it is; the standard rate of
/// 57600 is for the host that configured none.
pub proof fn lemma_configured_baud_rate_is_kept(rate: u32)
    ensures
        Settings::configured(Some(rate)).baud_rate == rate,
        Settings::configured(None).baud_rate == 57600,
        Settings::configured(None) == Settings::standard(),
{
}

/// The watcher publishes changes only. An enumeration that finds what is known
/// publishes nothing; one that finds anything else publishes what it found, after
/// which the same finding publishes nothing more.
pub proof fn lemma_watcher_publishes_changes_only(
    known: Seq<PortDescriptor>,
    found: Seq<PortDescriptor>,
)
    ensures
        fresh_inventory(known, Some(known)) is None,
        fresh_inventory(known, None) is None,
        found != known ==> fresh_inventory(known, Some(found)) == Some(found),
        fresh_inventory(found, Some(found)) is None,
{
}

} // verus!
