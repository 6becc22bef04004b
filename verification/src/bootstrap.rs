//! The start-up of the channel: open the device, send a probe that asks for
//! a listing, read the answer, and hand the live channel on.
//!
//! Like reading, the start-up is a dialogue. [`prepare`] takes the state of
//! the start-up and what has just happened, and answers with the next state
//! and the action that is due. It ends with [`BootAction::Ready`] or
//! [`BootAction::Abort`].

use crate::bus::{
    action_for, bus_after, poll_verdict, Action, Bus, BusView, Event, EventView, BUFFER_CHUNK,
    POLLIN, TIMEOUT,
};
use crate::error::{BootError, BusError, Stage};
use vstd::prelude::*;
use vstd::slice::slice_to_vec;
use vstd::string::{is_ascii_spec_bytes, StringSliceAdditionalSpecFns};

verus! {

/// Path to the hypervisor console, the device that the start-up opens.
pub const PATH: &'static str = "/dev/hvc0";

/// The probe that asks the other side for a listing. It is sent as it
/// stands, with nothing added at its end.
pub const PROBE: &'static str = " { \"type\": \"list\" } ";

/// Where the start-up stands.
#[derive(Debug)]
pub enum Boot {
    /// Nothing has been done yet.
    Idle,
    /// The device is being opened.
    Opening,
    /// The device is open and the probe is being written.
    Probing(Bus),
    /// The probe is out and the answer is being read.
    Listening(Bus),
    /// The start-up has ended, well or not.
    Over,
}

/// A [`Boot`] as a mathematical value.
pub enum BootView {
    Idle,
    Opening,
    Probing(BusView),
    Listening(BusView),
    Over,
}

impl View for Boot {
    type V = BootView;

    open spec fn view(&self) -> BootView {
        match *self {
            Boot::Idle => BootView::Idle,
            Boot::Opening => BootView::Opening,
            Boot::Probing(bus) => BootView::Probing(bus@),
            Boot::Listening(bus) => BootView::Listening(bus@),
            Boot::Over => BootView::Over,
        }
    }
}

/// What the caller reports to the start-up.
#[derive(Debug)]
pub enum BootEvent {
    /// The start-up is wanted.
    Begin,
    /// Opening the device gave a handle, or failed with an error number.
    Opened(Result<i32, i32>),
    /// Writing the probe was accepted for so many bytes, or failed with an
    /// error number.
    Written(Result<usize, i32>),
    /// Something happened on the device while the answer was being read.
    Device(Event),
}

/// A [`BootEvent`] as a mathematical value.
pub enum BootEventView {
    Begin,
    Opened(Result<i32, i32>),
    Written(Result<usize, i32>),
    Device(EventView),
}

impl View for BootEvent {
    type V = BootEventView;

    open spec fn view(&self) -> BootEventView {
        match *self {
            BootEvent::Begin => BootEventView::Begin,
            BootEvent::Opened(outcome) => BootEventView::Opened(outcome),
            BootEvent::Written(outcome) => BootEventView::Written(outcome),
            BootEvent::Device(event) => BootEventView::Device(event@),
        }
    }
}

/// What the start-up asks of the caller.
#[derive(Debug)]
pub enum BootAction {
    /// Open the device at `path` for reading and writing and report a
    /// [`BootEvent::Opened`].
    Open { path: &'static str },
    /// Write `bytes` to `fd` and report a [`BootEvent::Written`].
    Write { fd: i32, bytes: Vec<u8> },
    /// Carry out this action of the channel and report its outcome as a
    /// [`BootEvent::Device`].
    Device(Action),
    /// The start-up is done: make `report`, the answer that was received,
    /// known, and keep `bus` for further use.
    Ready { bus: Bus, report: Vec<u8> },
    /// The start-up has failed with `error`. Where a handle is named in
    /// `close`, the device was open: close that handle.
    Abort { error: BootError, close: Option<i32> },
    /// The event is not the one that the start-up was waiting for. Nothing
    /// has changed.
    Unexpected,
}

/// A [`BootAction`] as a mathematical value.
pub enum BootActionView {
    Open { path: Seq<char> },
    Write { fd: i32, bytes: Seq<u8> },
    Device(Action),
    Ready { bus: BusView, report: Seq<u8> },
    Abort { error: BootError, close: Option<i32> },
    Unexpected,
}

impl View for BootAction {
    type V = BootActionView;

    open spec fn view(&self) -> BootActionView {
        match *self {
            BootAction::Open { path } => BootActionView::Open { path: path@ },
            BootAction::Write { fd, bytes } => BootActionView::Write { fd, bytes: bytes@ },
            BootAction::Device(action) => BootActionView::Device(action),
            BootAction::Ready { bus, report } => BootActionView::Ready {
                bus: bus@,
                report: report@,
            },
            BootAction::Abort { error, close } => BootActionView::Abort { error, close },
            BootAction::Unexpected => BootActionView::Unexpected,
        }
    }
}

/// The bytes of the probe.
pub open spec fn probe_bytes() -> Seq<u8> {
    PROBE.spec_bytes()
}

/// A channel that has just been opened on `fd`.
pub open spec fn fresh_bus(fd: i32) -> BusView {
    BusView { handle: fd, cache: Seq::empty() }
}

/// The failure of the start-up at `stage` for the reason `cause`, with the
/// handle that is to be closed.
pub open spec fn abort(stage: Stage, cause: BusError, close: Option<i32>) -> (
    BootView,
    BootActionView,
) {
    (BootView::Over, BootActionView::Abort { error: BootError { stage, cause }, close })
}

/// How the start-up goes on once the channel `bus` has answered an event
/// with `action`: a delivered message ends it well, a failure ends it and
/// has the handle closed, and any other action is passed on.
pub open spec fn listen(bus: BusView, action: Action) -> (BootView, BootActionView) {
    match action {
        Action::Deliver => (BootView::Over, BootActionView::Ready { bus, report: bus.cache }),
        Action::Fail(cause) => abort(Stage::Read, cause, Some(bus.handle)),
        _ => (BootView::Listening(bus), BootActionView::Device(action)),
    }
}

/// The next state of the start-up and the action that is due, for every
/// state and event.
pub open spec fn boot_step(boot: BootView, event: BootEventView) -> (BootView, BootActionView) {
    match (boot, event) {
        (BootView::Idle, BootEventView::Begin) => (
            BootView::Opening,
            BootActionView::Open { path: PATH@ },
        ),
        (BootView::Opening, BootEventView::Opened(Ok(fd))) => (
            BootView::Probing(fresh_bus(fd)),
            BootActionView::Write { fd, bytes: probe_bytes() },
        ),
        (BootView::Opening, BootEventView::Opened(Err(errno))) => abort(
            Stage::Open,
            BusError::Open { errno },
            None,
        ),
        (BootView::Probing(bus), BootEventView::Written(Ok(_))) => listen(
            bus,
            action_for(bus, EventView::Start),
        ),
        (BootView::Probing(bus), BootEventView::Written(Err(errno))) => abort(
            Stage::Write,
            BusError::Write { errno },
            Some(bus.handle),
        ),
        (BootView::Listening(bus), BootEventView::Device(event)) => listen(
            bus_after(bus, event),
            action_for(bus, event),
        ),
        _ => (boot, BootActionView::Unexpected),
    }
}

/// Goes on with the start-up after the channel has answered with `action`.
fn settle(bus: Bus, action: Action) -> (next: (Boot, BootAction))
    ensures
        (next.0@, next.1@) == listen(bus@, action),
{
    match action {
        Action::Deliver => {
            let report = slice_to_vec(bus.message().as_slice());
            (Boot::Over, BootAction::Ready { bus, report })
        },
        Action::Fail(cause) => {
            let fd = bus.release();
            (
                Boot::Over,
                BootAction::Abort {
                    error: BootError { stage: Stage::Read, cause },
                    close: Some(fd),
                },
            )
        },
        _ => (Boot::Listening(bus), BootAction::Device(action)),
    }
}

/// Takes the start-up one step further.
///
/// The device at [`PATH`] is opened, [`PROBE`] is written to it, and one
/// message is read. The start-up then ends with the channel and the message
/// that is to be made known. A failure at any step ends it at once, names
/// the step, and has the handle closed if the device was open.
pub fn prepare(boot: Boot, event: BootEvent) -> (next: (Boot, BootAction))
    ensures
        (next.0@, next.1@) == boot_step(boot@, event@),
{
    match boot {
        Boot::Idle => match event {
            BootEvent::Begin => (Boot::Opening, BootAction::Open { path: PATH }),
            _ => (Boot::Idle, BootAction::Unexpected),
        },
        Boot::Opening => match event {
            BootEvent::Opened(opened) => match Bus::new(opened) {
                Ok(bus) => {
                    let fd = bus.borrow_raw();
                    let bytes = slice_to_vec(PROBE.as_bytes());
                    (Boot::Probing(bus), BootAction::Write { fd, bytes })
                },
                Err(cause) => (
                    Boot::Over,
                    BootAction::Abort {
                        error: BootError { stage: Stage::Open, cause },
                        close: None,
                    },
                ),
            },
            _ => (Boot::Opening, BootAction::Unexpected),
        },
        Boot::Probing(bus) => match event {
            BootEvent::Written(outcome) => match bus.written(outcome) {
                Ok(_) => {
                    let mut bus = bus;
                    let action = bus.read_msg(Event::Start);
                    settle(bus, action)
                },
                Err(cause) => {
                    let fd = bus.release();
                    (
                        Boot::Over,
                        BootAction::Abort {
                            error: BootError { stage: Stage::Write, cause },
                            close: Some(fd),
                        },
                    )
                },
            },
            _ => (Boot::Probing(bus), BootAction::Unexpected),
        },
        Boot::Listening(bus) => match event {
            BootEvent::Device(event) => {
                let mut bus = bus;
                let action = bus.read_msg(event);
                settle(bus, action)
            },
            _ => (Boot::Listening(bus), BootAction::Unexpected),
        },
        Boot::Over => (Boot::Over, BootAction::Unexpected),
    }
}

/// The handle that the start-up holds in state `boot`, if it holds one.
pub open spec fn held(boot: BootView) -> Option<i32> {
    match boot {
        BootView::Probing(bus) => Some(bus.handle),
        BootView::Listening(bus) => Some(bus.handle),
        _ => None,
    }
}

/// The probe is the request for a listing, byte for byte, with a blank
/// before and after it and no terminator.
pub proof fn lemma_probe_is_listing_request()
    ensures
        probe_bytes() == seq![
            0x20u8, 0x7b, 0x20, 0x22, 0x74, 0x79, 0x70, 0x65, 0x22, 0x3a,
            0x20, 0x22, 0x6c, 0x69, 0x73, 0x74, 0x22, 0x20, 0x7d, 0x20,
        ],
{
    reveal_strlit(" { \"type\": \"list\" } ");
    is_ascii_spec_bytes(PROBE);
    assert(probe_bytes() =~= seq![
        0x20u8, 0x7b, 0x20, 0x22, 0x74, 0x79, 0x70, 0x65, 0x22, 0x3a,
        0x20, 0x22, 0x6c, 0x69, 0x73, 0x74, 0x22, 0x20, 0x7d, 0x20,
    ]);
}

/// Where the device cannot be opened, the start-up ends at once with the
/// failure of that step, no channel comes to be, and no handle is left to
/// close.
pub proof fn lemma_failed_open_leaves_no_handle(errno: i32)
    ensures
        boot_step(BootView::Opening, BootEventView::Opened(Err(errno))) == (
            BootView::Over,
            BootActionView::Abort {
                error: BootError { stage: Stage::Open, cause: BusError::Open { errno } },
                close: None,
            },
        ),
{
}

/// The start-up never loses a handle and never names one twice. A handle
/// comes in with the write that follows the opening. From then on each step
/// either keeps it, or ends the start-up and hands it over: in the channel
/// that is ready, or for closing where the start-up fails, whatever the
/// cache holds by then. After that the start-up holds none.
pub proof fn lemma_handle_leaves_once(boot: BootView, event: BootEventView)
    ensures
        match boot_step(boot, event).1 {
            BootActionView::Write { fd, .. } => held(boot) is None && held(boot_step(boot, event).0)
                == Some(fd),
            BootActionView::Ready { bus, .. } => held(boot) == Some(bus.handle) && held(
                boot_step(boot, event).0,
            ) is None,
            BootActionView::Abort { close, .. } => close == held(boot) && held(
                boot_step(boot, event).0,
            ) is None,
            BootActionView::Unexpected => boot_step(boot, event).0 == boot,
            _ => held(boot_step(boot, event).0) == held(boot),
        },
{
}

/// A start-up against a device that opens, takes the probe, and answers
/// within the timeout with a message shorter than a chunk runs through in
/// five steps: it opens the device at the fixed path, writes the probe,
/// waits, reads once, and is ready with the channel on the opened handle and
/// with the answer, unchanged, as what is to be made known.
pub proof fn lemma_short_answer_completes_start_up(
    fd: i32,
    sent: usize,
    ready: i32,
    revents: i16,
    answer: Seq<u8>,
)
    requires
        poll_verdict(ready, revents) is None,
        answer.len() < BUFFER_CHUNK,
    ensures
        ({
            let begun = boot_step(BootView::Idle, BootEventView::Begin);
            let opened = boot_step(begun.0, BootEventView::Opened(Ok(fd)));
            let written = boot_step(opened.0, BootEventView::Written(Ok(sent)));
            let polled = boot_step(
                written.0,
                BootEventView::Device(EventView::Polled { ready, revents }),
            );
            let read = boot_step(polled.0, BootEventView::Device(EventView::Chunk(answer)));
            &&& begun.1 == BootActionView::Open { path: PATH@ }
            &&& opened.1 == BootActionView::Write { fd, bytes: probe_bytes() }
            &&& written.1 == BootActionView::Device(
                Action::Poll { fd, events: POLLIN, timeout: TIMEOUT },
            )
            &&& polled.1 == BootActionView::Device(Action::Read { fd, len: BUFFER_CHUNK })
            &&& read.0 == BootView::Over
            &&& read.1 == BootActionView::Ready {
                bus: BusView { handle: fd, cache: answer },
                report: answer,
            }
        }),
{
    assert(Seq::<u8>::empty() + answer =~= answer);
}

} // verus!
