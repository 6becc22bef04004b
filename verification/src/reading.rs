//! A whole read of a message, seen from outside: the dialogue of
//! [`Bus::read_msg`](crate::bus::Bus::read_msg) carried through against a
//! device whose answers are known, and what holds of every such read.

use crate::bus::{
    action_for, bus_after, poll_verdict, Action, Bus, BusView, Event, EventView, BUFFER_CHUNK,
};
use crate::error::BusError;
use vstd::prelude::*;
use vstd::slice::slice_to_vec;

verus! {

/// What a device is going to answer: the outcome of the readiness wait, and
/// the outcomes of the reads in the order in which they will be made. A read
/// gives its bytes or an error number.
pub struct Device {
    pub ready: i32,
    pub revents: i16,
    pub reads: Seq<Result<Seq<u8>, i32>>,
}

/// How a read of a message ended.
#[derive(Clone, Copy, Debug, PartialEq, Eq, Structural)]
pub enum Ending {
    /// The message was delivered.
    Delivered,
    /// The read failed.
    Failed(BusError),
    /// The channel asked for a read that the device had no answer for.
    Pending,
}

/// A read of a message: the channel after it, how it ended, and how often the
/// device was waited on and read from.
#[verifier::ext_equal]
pub struct Reading {
    pub bus: BusView,
    pub ending: Ending,
    pub polls: nat,
    pub reads: nat,
}

/// The event that reports the outcome of one read.
pub open spec fn read_event(outcome: Result<Seq<u8>, i32>) -> EventView {
    match outcome {
        Ok(bytes) => EventView::Chunk(bytes),
        Err(errno) => EventView::ReadFailed { errno },
    }
}

/// The chunked part of a read: the channel has asked for a read, and `reads`
/// are the answers to come. Each answer is reported, and the next one is
/// fetched for as long as the channel asks for another read.
pub open spec fn drain(bus: BusView, reads: Seq<Result<Seq<u8>, i32>>) -> Reading
    decreases reads.len(),
{
    if reads.len() == 0 {
        Reading { bus, ending: Ending::Pending, polls: 0, reads: 0 }
    } else {
        let event = read_event(reads.first());
        let next = bus_after(bus, event);
        match action_for(bus, event) {
            Action::Deliver => Reading { bus: next, ending: Ending::Delivered, polls: 0, reads: 1 },
            Action::Fail(error) => Reading {
                bus: next,
                ending: Ending::Failed(error),
                polls: 0,
                reads: 1,
            },
            _ => {
                let rest = drain(next, reads.skip(1));
                Reading { bus: rest.bus, ending: rest.ending, polls: 0, reads: rest.reads + 1 }
            },
        }
    }
}

/// A whole read of a message by a channel in state `bus` from `device`.
pub open spec fn read_message(bus: BusView, device: Device) -> Reading {
    match action_for(bus, EventView::Start) {
        Action::Deliver => Reading { bus, ending: Ending::Delivered, polls: 0, reads: 0 },
        _ => {
            let polled = EventView::Polled { ready: device.ready, revents: device.revents };
            match action_for(bus, polled) {
                Action::Fail(error) => Reading {
                    bus,
                    ending: Ending::Failed(error),
                    polls: 1,
                    reads: 0,
                },
                _ => {
                    let rest = drain(bus, device.reads);
                    Reading { bus: rest.bus, ending: rest.ending, polls: 1, reads: rest.reads }
                },
            }
        },
    }
}

/// The answers of a device as they were recorded or written down by hand.
#[derive(Debug)]
pub struct Recording {
    pub ready: i32,
    pub revents: i16,
    pub reads: Vec<Result<Vec<u8>, i32>>,
}

impl View for Recording {
    type V = Device;

    open spec fn view(&self) -> Device {
        Device {
            ready: self.ready,
            revents: self.revents,
            reads: Seq::new(
                self.reads@.len(),
                |i: int|
                    match self.reads@[i] {
                        Ok(bytes) => Ok(bytes@),
                        Err(errno) => Err(errno),
                    },
            ),
        }
    }
}

/// How a replayed read ended, and how often the device was waited on and
/// read from.
#[derive(Clone, Copy, Debug, PartialEq, Eq, Structural)]
pub struct Outcome {
    pub ending: Ending,
    pub polls: usize,
    pub reads: usize,
}

/// Reads a message from a device whose answers are on record: the dialogue
/// of [`Bus::read_msg`] is carried through with the recorded answers in place
/// of the device. Where the channel asks for a read beyond the end of the
/// record, the read of the message stays [`Ending::Pending`].
pub fn replay(bus: &mut Bus, recording: &Recording) -> (outcome: Outcome)
    ensures
        final(bus)@ == read_message(old(bus)@, recording@).bus,
        outcome.ending == read_message(old(bus)@, recording@).ending,
        outcome.polls == read_message(old(bus)@, recording@).polls,
        outcome.reads == read_message(old(bus)@, recording@).reads,
{
    let ghost device = recording@;
    match bus.read_msg(Event::Start) {
        Action::Deliver => {
            return Outcome { ending: Ending::Delivered, polls: 0, reads: 0 };
        },
        _ => {},
    }
    match bus.read_msg(Event::Polled { ready: recording.ready, revents: recording.revents }) {
        Action::Fail(error) => {
            return Outcome { ending: Ending::Failed(error), polls: 1, reads: 0 };
        },
        _ => {},
    }
    let ghost whole = drain(bus@, device.reads);
    let mut i: usize = 0;
    assert(device.reads.skip(0) =~= device.reads);
    while i < recording.reads.len()
        invariant
            i <= recording.reads.len(),
            device == recording@,
            read_message(old(bus)@, device).bus == whole.bus,
            read_message(old(bus)@, device).ending == whole.ending,
            read_message(old(bus)@, device).reads == whole.reads,
            read_message(old(bus)@, device).polls == 1,
            whole.bus == drain(bus@, device.reads.skip(i as int)).bus,
            whole.ending == drain(bus@, device.reads.skip(i as int)).ending,
            whole.reads == drain(bus@, device.reads.skip(i as int)).reads + i,
        decreases recording.reads.len() - i,
    {
        let ghost rest = device.reads.skip(i as int);
        assert(rest.first() == device.reads[i as int]);
        assert(rest.skip(1) =~= device.reads.skip(i + 1));
        let event = match &recording.reads[i] {
            Ok(bytes) => Event::Chunk(slice_to_vec(bytes.as_slice())),
            Err(errno) => Event::ReadFailed { errno: *errno },
        };
        assert(event@ == read_event(rest.first()));
        let action = bus.read_msg(event);
        i += 1;
        match action {
            Action::Deliver => {
                return Outcome { ending: Ending::Delivered, polls: 1, reads: i };
            },
            Action::Fail(error) => {
                return Outcome { ending: Ending::Failed(error), polls: 1, reads: i };
            },
            _ => {},
        }
    }
    Outcome { ending: Ending::Pending, polls: 1, reads: i }
}

/// The answers of a device that holds exactly `payload` to reads of one
/// chunk each: whole chunks for as long as that many bytes are left, then the
/// rest, which is a read of no bytes where the payload ends on a chunk
/// boundary.
pub open spec fn chunked(payload: Seq<u8>) -> Seq<Result<Seq<u8>, i32>>
    decreases payload.len(),
{
    if payload.len() < BUFFER_CHUNK {
        seq![Ok(payload)]
    } else {
        seq![Ok(payload.take(BUFFER_CHUNK as int))] + chunked(payload.skip(BUFFER_CHUNK as int))
    }
}

/// Whether a read gave a whole chunk, so that the message goes on.
pub open spec fn is_whole_chunk(outcome: Result<Seq<u8>, i32>) -> bool {
    outcome matches Ok(bytes) && bytes.len() >= BUFFER_CHUNK
}

/// The bytes that `reads` gave, one after the other. A failed read gave
/// none.
pub open spec fn gathered(reads: Seq<Result<Seq<u8>, i32>>) -> Seq<u8>
    decreases reads.len(),
{
    if reads.len() == 0 {
        Seq::empty()
    } else {
        let head = match reads.first() {
            Ok(bytes) => bytes,
            Err(_) => Seq::empty(),
        };
        head + gathered(reads.skip(1))
    }
}

/// The channel with the same handle as `bus` and `bytes` added to its cache.
pub open spec fn grown(bus: BusView, bytes: Seq<u8>) -> BusView {
    BusView { handle: bus.handle, cache: bus.cache + bytes }
}

/// A message ends with the first read that does not give a whole chunk, and
/// nowhere else. If the answers before answer `last` are whole chunks and that
/// answer is not, then the read takes exactly the answers up to it, the cache
/// grows by their bytes in order, and the message is delivered, or fails
/// with the error of that last read.
pub proof fn lemma_message_ends_at_first_short_read(
    bus: BusView,
    reads: Seq<Result<Seq<u8>, i32>>,
    last: int,
)
    requires
        0 <= last < reads.len(),
        forall|i: int| 0 <= i < last ==> is_whole_chunk(#[trigger] reads[i]),
        !is_whole_chunk(reads[last]),
    ensures
        drain(bus, reads) == (Reading {
            bus: grown(bus, gathered(reads.take(last + 1))),
            ending: match reads[last] {
                Ok(_) => Ending::Delivered,
                Err(errno) => Ending::Failed(BusError::Read { errno }),
            },
            polls: 0,
            reads: (last + 1) as nat,
        }),
    decreases last,
{
    let taken = reads.take(last + 1);
    assert(taken.first() == reads.first());
    assert(taken.skip(1) =~= reads.skip(1).take(last));
    if last == 0 {
        assert(gathered(taken.skip(1)) =~= Seq::empty());
        match reads.first() {
            Ok(bytes) => {
                assert(bus.cache + bytes =~= bus.cache + gathered(taken));
            },
            Err(_) => {
                assert(bus.cache =~= bus.cache + gathered(taken));
            },
        }
    } else {
        assert(is_whole_chunk(reads[0]));
        let head = reads.first()->Ok_0;
        let next = bus_after(bus, EventView::Chunk(head));
        let rest = reads.skip(1);
        assert forall|i: int| 0 <= i < last - 1 implies is_whole_chunk(#[trigger] rest[i]) by {
            assert(rest[i] == reads[i + 1]);
        }
        assert(rest[last - 1] == reads[last]);
        lemma_message_ends_at_first_short_read(next, rest, last - 1);
        assert(next.cache + gathered(rest.take(last)) =~= bus.cache + gathered(taken));
    }
}

/// As long as every read gives a whole chunk, nothing is delivered: after
/// the last of the answers the channel still asks for a read, and the cache
/// has grown by all their bytes in order.
pub proof fn lemma_whole_chunks_keep_reading(bus: BusView, reads: Seq<Result<Seq<u8>, i32>>)
    requires
        forall|i: int| 0 <= i < reads.len() ==> is_whole_chunk(#[trigger] reads[i]),
    ensures
        drain(bus, reads) == (Reading {
            bus: grown(bus, gathered(reads)),
            ending: Ending::Pending,
            polls: 0,
            reads: reads.len(),
        }),
    decreases reads.len(),
{
    if reads.len() == 0 {
        assert(bus.cache + gathered(reads) =~= bus.cache);
    } else {
        assert(is_whole_chunk(reads[0]));
        let head = reads.first()->Ok_0;
        let next = bus_after(bus, EventView::Chunk(head));
        let rest = reads.skip(1);
        assert forall|i: int| 0 <= i < rest.len() implies is_whole_chunk(#[trigger] rest[i]) by {
            assert(rest[i] == reads[i + 1]);
        }
        lemma_whole_chunks_keep_reading(next, rest);
        assert(next.cache + gathered(rest) =~= bus.cache + gathered(reads));
    }
}

/// Whatever a payload holds and however long it is, a device that hands it
/// out chunk by chunk has it delivered whole and unchanged, behind what the
/// cache held before, after one read more than the payload has whole chunks.
pub proof fn lemma_chunked_payload_is_delivered(bus: BusView, payload: Seq<u8>)
    ensures
        drain(bus, chunked(payload)) == (Reading {
            bus: grown(bus, payload),
            ending: Ending::Delivered,
            polls: 0,
            reads: (payload.len() / BUFFER_CHUNK as nat + 1) as nat,
        }),
    decreases payload.len(),
{
    let reads = chunked(payload);
    if payload.len() < BUFFER_CHUNK {
        assert(reads.first() == Ok::<Seq<u8>, i32>(payload));
    } else {
        let head = payload.take(BUFFER_CHUNK as int);
        let tail = payload.skip(BUFFER_CHUNK as int);
        assert(reads.first() == Ok::<Seq<u8>, i32>(head));
        assert(reads.skip(1) =~= chunked(tail));
        let next = bus_after(bus, EventView::Chunk(head));
        lemma_chunked_payload_is_delivered(next, tail);
        assert(next.cache + tail =~= bus.cache + payload);
    }
}

/// A payload shorter than a chunk, handed out by the device in one read,
/// is delivered exactly: a channel with an empty cache that finds the device
/// readable waits once, reads once, and then holds the payload and nothing
/// else.
pub proof fn lemma_short_message_round_trip(bus: BusView, payload: Seq<u8>, ready: i32, revents: i16)
    requires
        bus.cache.len() == 0,
        payload.len() < BUFFER_CHUNK,
        poll_verdict(ready, revents) is None,
    ensures
        read_message(bus, Device { ready, revents, reads: seq![Ok(payload)] }) == (Reading {
            bus: BusView { handle: bus.handle, cache: payload },
            ending: Ending::Delivered,
            polls: 1,
            reads: 1,
        }),
{
    let reads = seq![Ok::<Seq<u8>, i32>(payload)];
    assert(reads.first() == Ok::<Seq<u8>, i32>(payload));
    assert(bus.cache + payload =~= payload);
}

/// A payload that ends on a chunk boundary is not cut short there. After the
/// whole chunks alone the channel still asks for a read and has delivered
/// nothing; only the read of no bytes that follows completes the message,
/// which is then the payload, whole.
pub proof fn lemma_chunk_multiple_keeps_reading(bus: BusView, payload: Seq<u8>)
    requires
        payload.len() % BUFFER_CHUNK as nat == 0,
    ensures
        chunked(payload).len() == payload.len() / BUFFER_CHUNK as nat + 1,
        chunked(payload).last() == Ok::<Seq<u8>, i32>(Seq::empty()),
        drain(bus, chunked(payload).drop_last()) == (Reading {
            bus: grown(bus, payload),
            ending: Ending::Pending,
            polls: 0,
            reads: payload.len() / BUFFER_CHUNK as nat,
        }),
        drain(bus, chunked(payload)) == (Reading {
            bus: grown(bus, payload),
            ending: Ending::Delivered,
            polls: 0,
            reads: (payload.len() / BUFFER_CHUNK as nat + 1) as nat,
        }),
    decreases payload.len(),
{
    lemma_chunked_payload_is_delivered(bus, payload);
    let reads = chunked(payload);
    if payload.len() == 0 {
        assert(reads.drop_last() =~= Seq::empty());
        assert(reads.last() == Ok::<Seq<u8>, i32>(payload));
        assert(payload =~= Seq::empty());
        assert(bus.cache + payload =~= bus.cache);
    } else {
        let head = payload.take(BUFFER_CHUNK as int);
        let tail = payload.skip(BUFFER_CHUNK as int);
        let next = bus_after(bus, EventView::Chunk(head));
        lemma_chunk_multiple_keeps_reading(next, tail);
        assert(reads.first() == Ok::<Seq<u8>, i32>(head));
        assert(reads.last() == chunked(tail).last());
        assert(reads.drop_last().first() == Ok::<Seq<u8>, i32>(head));
        assert(reads.drop_last().skip(1) =~= chunked(tail).drop_last());
        assert(next.cache + tail =~= bus.cache + payload);
    }
}

/// Once a message lies in the cache, reading again delivers the same bytes
/// and leaves the device alone: no wait and no read is made, whatever the
/// device would have answered.
pub proof fn lemma_cached_message_is_reread(bus: BusView, device: Device)
    requires
        bus.cache.len() > 0,
    ensures
        read_message(bus, device) == (Reading {
            bus,
            ending: Ending::Delivered,
            polls: 0,
            reads: 0,
        }),
{
}

/// A read that has delivered at least one byte can be repeated at will: the
/// second read ends as the first did, with the same cache, and touches the
/// device no more.
pub proof fn lemma_read_twice_is_read_once(bus: BusView, first: Device, second: Device)
    requires
        read_message(bus, first).ending is Delivered,
        read_message(bus, first).bus.cache.len() > 0,
    ensures
        read_message(read_message(bus, first).bus, second) == (Reading {
            bus: read_message(bus, first).bus,
            ending: Ending::Delivered,
            polls: 0,
            reads: 0,
        }),
{
    lemma_cached_message_is_reread(read_message(bus, first).bus, second);
}

/// Where the wait ends with no handle ready, the read fails with a timeout
/// after that one wait, no read is made, and the cache stays empty.
pub proof fn lemma_timeout_leaves_cache_empty(bus: BusView, device: Device)
    requires
        bus.cache.len() == 0,
        device.ready == 0,
    ensures
        read_message(bus, device) == (Reading {
            bus,
            ending: Ending::Failed(BusError::Timeout),
            polls: 1,
            reads: 0,
        }),
        read_message(bus, device).bus.cache.len() == 0,
{
}

/// A read only ever adds to the cache, at its end, and never touches the
/// handle: what was gathered before stays in front, also where the read
/// fails partway.
pub proof fn lemma_read_extends_cache(bus: BusView, device: Device)
    ensures
        read_message(bus, device).bus.handle == bus.handle,
        bus.cache.is_prefix_of(read_message(bus, device).bus.cache),
{
    lemma_drain_extends_cache(bus, device.reads);
}

/// The chunked part of a read only ever adds to the cache, at its end, and
/// never touches the handle.
pub proof fn lemma_drain_extends_cache(bus: BusView, reads: Seq<Result<Seq<u8>, i32>>)
    ensures
        drain(bus, reads).bus.handle == bus.handle,
        bus.cache.is_prefix_of(drain(bus, reads).bus.cache),
        drain(bus, reads).reads <= reads.len(),
    decreases reads.len(),
{
    if reads.len() > 0 {
        let next = bus_after(bus, read_event(reads.first()));
        lemma_drain_extends_cache(next, reads.skip(1));
    }
}

} // verus!
