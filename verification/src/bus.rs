//! The channel: one device handle, a one-shot cache of the last message, and
//! the protocol that reads a message until the device falls idle.
//!
//! Reading is a dialogue. [`Bus::read_msg`] takes what has just happened on
//! the device as an [`Event`] and answers with the [`Action`] that is due
//! next. The caller performs the action and comes back with its outcome until
//! the answer is [`Action::Deliver`] or [`Action::Fail`].
//!
//! A `Bus` is meant for one owner that calls it from one thread at a time.

use crate::error::BusError;
use vstd::prelude::*;

verus! {

/// How long a readiness wait may last, in milliseconds.
pub const TIMEOUT: i32 = 10000;

/// The number of bytes asked for in a single read.
pub const BUFFER_CHUNK: usize = 1024;

/// The readiness flag that stands for "data is available to read".
pub const POLLIN: i16 = 0x001;

/// What the caller reports to the channel.
#[derive(Debug)]
pub enum Event {
    /// A message is wanted.
    Start,
    /// The readiness wait returned `ready` as its count of ready handles
    /// (`-1` for a failure of the wait itself) and `revents` as the flags of
    /// the handle.
    Polled { ready: i32, revents: i16 },
    /// A read returned these bytes; none at all when the stream is at its end.
    Chunk(Vec<u8>),
    /// A read failed with this error number.
    ReadFailed { errno: i32 },
}

/// An [`Event`] as a mathematical value.
pub enum EventView {
    Start,
    Polled { ready: i32, revents: i16 },
    Chunk(Seq<u8>),
    ReadFailed { errno: i32 },
}

impl View for Event {
    type V = EventView;

    open spec fn view(&self) -> EventView {
        match *self {
            Event::Start => EventView::Start,
            Event::Polled { ready, revents } => EventView::Polled { ready, revents },
            Event::Chunk(bytes) => EventView::Chunk(bytes@),
            Event::ReadFailed { errno } => EventView::ReadFailed { errno },
        }
    }
}

/// What the channel asks of the caller.
#[derive(Clone, Copy, Debug, PartialEq, Eq, Structural)]
pub enum Action {
    /// Wait until `fd` shows one of `events`, for `timeout` milliseconds at
    /// most, and report an [`Event::Polled`].
    Poll { fd: i32, events: i16, timeout: i32 },
    /// Read up to `len` bytes from `fd` and report an [`Event::Chunk`] or an
    /// [`Event::ReadFailed`].
    Read { fd: i32, len: usize },
    /// The message is complete and lies in the cache.
    Deliver,
    /// Reading has failed.
    Fail(BusError),
}

/// A channel as a mathematical value: its handle and the cached message.
#[verifier::ext_equal]
pub struct BusView {
    pub handle: i32,
    pub cache: Seq<u8>,
}

/// Whether a read that returned `len` bytes ends the message. A read that
/// filled the whole chunk does not: more may follow.
pub open spec fn ends_message(len: nat) -> bool {
    len < BUFFER_CHUNK
}

/// How the outcome of a readiness wait is judged: `None` where the handle is
/// readable, else the failure.
pub open spec fn poll_verdict(ready: i32, revents: i16) -> Option<BusError> {
    if ready == -1 {
        Some(BusError::Poll)
    } else if ready == 0 {
        Some(BusError::Timeout)
    } else if revents & POLLIN == 0 {
        Some(BusError::SpuriousReadiness)
    } else {
        None
    }
}

/// The cache after `event`. Only the bytes of a read are ever added, at the
/// end.
pub open spec fn cache_after(cache: Seq<u8>, event: EventView) -> Seq<u8> {
    match event {
        EventView::Chunk(bytes) => cache + bytes,
        _ => cache,
    }
}

/// The answer of a channel in state `bus` to `event`.
pub open spec fn action_for(bus: BusView, event: EventView) -> Action {
    match event {
        EventView::Start => if bus.cache.len() > 0 {
            Action::Deliver
        } else {
            Action::Poll { fd: bus.handle, events: POLLIN, timeout: TIMEOUT }
        },
        EventView::Polled { ready, revents } => match poll_verdict(ready, revents) {
            Some(error) => Action::Fail(error),
            None => Action::Read { fd: bus.handle, len: BUFFER_CHUNK },
        },
        EventView::Chunk(bytes) => if ends_message(bytes.len()) {
            Action::Deliver
        } else {
            Action::Read { fd: bus.handle, len: BUFFER_CHUNK }
        },
        EventView::ReadFailed { errno } => Action::Fail(BusError::Read { errno }),
    }
}

/// The state of a channel after `event`.
pub open spec fn bus_after(bus: BusView, event: EventView) -> BusView {
    BusView { handle: bus.handle, cache: cache_after(bus.cache, event) }
}

/// Judges the outcome of a readiness wait.
pub fn check_poll(ready: i32, revents: i16) -> (verdict: Option<BusError>)
    ensures
        verdict == poll_verdict(ready, revents),
{
    if ready == -1 {
        Some(BusError::Poll)
    } else if ready == 0 {
        Some(BusError::Timeout)
    } else if revents & POLLIN == 0 {
        Some(BusError::SpuriousReadiness)
    } else {
        None
    }
}

/// Represents the bus.
#[derive(Debug)]
pub struct Bus {
    fd: i32,
    buffer: Vec<u8>,
}

impl View for Bus {
    type V = BusView;

    closed spec fn view(&self) -> BusView {
        BusView { handle: self.fd, cache: self.buffer@ }
    }
}

impl Bus {
    /// Creates a new bus from the outcome of opening the device for reading
    /// and writing: the handle, or the error number of the failed attempt.
    /// The cache of a new bus is empty.
    pub fn new(opened: Result<i32, i32>) -> (bus: Result<Bus, BusError>)
        ensures
            match opened {
                Ok(fd) => bus matches Ok(b) && b@ == (BusView { handle: fd, cache: Seq::empty() }),
                Err(errno) => bus matches Err(e) && e == (BusError::Open { errno }),
            },
    {
        match opened {
            Ok(fd) => Ok(Bus { fd, buffer: Vec::new() }),
            Err(errno) => Err(BusError::Open { errno }),
        }
    }

    /// Reads from the bus until the end has been reached, one step at a time.
    ///
    /// A message that is already cached is delivered again without touching
    /// the device. Otherwise the handle is waited on once, and then read in
    /// chunks that are appended to the cache until a read returns less than a
    /// whole chunk. A failed read fails the message and leaves in the cache
    /// what had been gathered.
    pub fn read_msg(&mut self, event: Event) -> (action: Action)
        ensures
            final(self)@ == bus_after(old(self)@, event@),
            action == action_for(old(self)@, event@),
    {
        match event {
            Event::Start => {
                if self.buffer.len() > 0 {
                    Action::Deliver
                } else {
                    Action::Poll { fd: self.fd, events: POLLIN, timeout: TIMEOUT }
                }
            },
            Event::Polled { ready, revents } => {
                match check_poll(ready, revents) {
                    Some(error) => Action::Fail(error),
                    None => Action::Read { fd: self.fd, len: BUFFER_CHUNK },
                }
            },
            Event::Chunk(bytes) => {
                let mut bytes = bytes;
                let last = bytes.len() < BUFFER_CHUNK;
                self.buffer.append(&mut bytes);
                if last {
                    Action::Deliver
                } else {
                    Action::Read { fd: self.fd, len: BUFFER_CHUNK }
                }
            },
            Event::ReadFailed { errno } => Action::Fail(BusError::Read { errno }),
        }
    }

    /// The cached message: empty until a read has gathered bytes.
    pub fn message(&self) -> (bytes: &Vec<u8>)
        ensures
            bytes@ == self@.cache,
    {
        &self.buffer
    }

    /// Returns the handle of the bus without giving up its ownership.
    ///
    /// The number must not be used once the bus has been released, and the
    /// handle must not be closed while the bus lives. Nothing checks this: it
    /// is the caller's obligation.
    pub fn borrow_raw(&self) -> (fd: i32)
        ensures
            fd == self@.handle,
    {
        self.fd
    }

    /// Judges the outcome of a write to the bus: the number of bytes that the
    /// device accepted, or the failure.
    pub fn written(&self, outcome: Result<usize, i32>) -> (sent: Result<usize, BusError>)
        ensures
            match outcome {
                Ok(n) => sent == Ok::<usize, BusError>(n),
                Err(errno) => sent == Err::<usize, BusError>(BusError::Write { errno }),
            },
    {
        match outcome {
            Ok(n) => Ok(n),
            Err(errno) => Err(BusError::Write { errno }),
        }
    }

    /// Ends the life of the bus and names the handle that is now to be
    /// closed. The bus is consumed, so its handle is named for closing once,
    /// whatever the cache holds.
    pub fn release(self) -> (fd: i32)
        ensures
            fd == self@.handle,
    {
        self.fd
    }

    /// Judges the outcome of closing a released handle. A failure is to be
    /// logged and goes no further.
    pub fn closed(outcome: Result<(), i32>) -> (log: Option<BusError>)
        ensures
            match outcome {
                Ok(_) => log.is_none(),
                Err(errno) => log == Some(BusError::Close { errno }),
            },
    {
        match outcome {
            Ok(_) => None,
            Err(errno) => Some(BusError::Close { errno }),
        }
    }
}

} // verus!
