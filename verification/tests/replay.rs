use hvc_bus::bus::{Bus, BUFFER_CHUNK, POLLIN};
use hvc_bus::error::BusError;
use hvc_bus::reading::{replay, Ending, Outcome, Recording};

fn bus_on(fd: i32) -> Bus {
    match Bus::new(Ok(fd)) {
        Ok(bus) => bus,
        Err(error) => panic!("a handle must give a bus, not {:?}", error),
    }
}

fn readable(reads: Vec<Result<Vec<u8>, i32>>) -> Recording {
    Recording { ready: 1, revents: POLLIN, reads }
}

fn bytes(len: usize, seed: u8) -> Vec<u8> {
    let mut out = Vec::new();
    for i in 0..len {
        out.push(seed.wrapping_add((i % 7) as u8));
    }
    out
}

#[test]
fn replay_delivers_short_message() {
    let payload = b"[]".to_vec();
    let mut bus = bus_on(3);
    let outcome = replay(&mut bus, &readable(vec![Ok(payload.clone())]));
    assert_eq!(outcome, Outcome { ending: Ending::Delivered, polls: 1, reads: 1 });
    assert_eq!(bus.message(), &payload);
    assert_eq!(bus.borrow_raw(), 3);
}

#[test]
fn replay_of_longest_short_message() {
    let payload = bytes(BUFFER_CHUNK - 1, 40);
    let mut bus = bus_on(3);
    let outcome = replay(&mut bus, &readable(vec![Ok(payload.clone())]));
    assert_eq!(outcome, Outcome { ending: Ending::Delivered, polls: 1, reads: 1 });
    assert_eq!(bus.message(), &payload);
}

#[test]
fn replay_goes_on_after_whole_chunks() {
    let first = bytes(BUFFER_CHUNK, 1);
    let second = bytes(BUFFER_CHUNK, 2);
    let mut whole = first.clone();
    whole.extend_from_slice(&second);

    let mut bus = bus_on(3);
    let pending = replay(&mut bus, &readable(vec![Ok(first.clone()), Ok(second.clone())]));
    assert_eq!(pending, Outcome { ending: Ending::Pending, polls: 1, reads: 2 });
    assert_eq!(bus.message(), &whole);

    let mut bus = bus_on(3);
    let done = replay(&mut bus, &readable(vec![Ok(first), Ok(second), Ok(Vec::new())]));
    assert_eq!(done, Outcome { ending: Ending::Delivered, polls: 1, reads: 3 });
    assert_eq!(bus.message(), &whole);
}

#[test]
fn replay_stops_at_first_short_read() {
    let mut bus = bus_on(3);
    let outcome = replay(
        &mut bus,
        &readable(vec![Ok(bytes(BUFFER_CHUNK, 9)), Ok(b"end".to_vec()), Ok(b"more".to_vec())]),
    );
    assert_eq!(outcome, Outcome { ending: Ending::Delivered, polls: 1, reads: 2 });
    let mut expected = bytes(BUFFER_CHUNK, 9);
    expected.extend_from_slice(b"end");
    assert_eq!(bus.message(), &expected);
}

#[test]
fn replay_twice_reads_once() {
    let payload = b"{\"ok\":true}".to_vec();
    let mut bus = bus_on(3);
    let first = replay(&mut bus, &readable(vec![Ok(payload.clone())]));
    assert_eq!(first, Outcome { ending: Ending::Delivered, polls: 1, reads: 1 });
    let second = replay(&mut bus, &readable(vec![Ok(b"something else".to_vec())]));
    assert_eq!(second, Outcome { ending: Ending::Delivered, polls: 0, reads: 0 });
    assert_eq!(bus.message(), &payload);
    let third = replay(&mut bus, &Recording { ready: 0, revents: 0, reads: Vec::new() });
    assert_eq!(third, Outcome { ending: Ending::Delivered, polls: 0, reads: 0 });
    assert_eq!(bus.message(), &payload);
}

#[test]
fn replay_of_timeout() {
    let mut bus = bus_on(3);
    let outcome = replay(
        &mut bus,
        &Recording { ready: 0, revents: 0, reads: vec![Ok(b"late".to_vec())] },
    );
    assert_eq!(
        outcome,
        Outcome { ending: Ending::Failed(BusError::Timeout), polls: 1, reads: 0 }
    );
    assert!(bus.message().is_empty());
}

#[test]
fn replay_of_failed_wait() {
    let mut bus = bus_on(3);
    let outcome = replay(&mut bus, &Recording { ready: -1, revents: POLLIN, reads: Vec::new() });
    assert_eq!(
        outcome,
        Outcome { ending: Ending::Failed(BusError::Poll), polls: 1, reads: 0 }
    );
    assert!(bus.message().is_empty());
}

#[test]
fn replay_of_spurious_readiness() {
    let mut bus = bus_on(3);
    let outcome = replay(&mut bus, &Recording { ready: 1, revents: 4, reads: Vec::new() });
    assert_eq!(
        outcome,
        Outcome { ending: Ending::Failed(BusError::SpuriousReadiness), polls: 1, reads: 0 }
    );
}

#[test]
fn replay_of_read_failure_partway() {
    let head = bytes(BUFFER_CHUNK, 3);
    let mut bus = bus_on(3);
    let outcome = replay(&mut bus, &readable(vec![Ok(head.clone()), Err(4), Ok(b"x".to_vec())]));
    assert_eq!(
        outcome,
        Outcome { ending: Ending::Failed(BusError::Read { errno: 4 }), polls: 1, reads: 2 }
    );
    assert_eq!(bus.message(), &head);
}

#[test]
fn replay_without_reads_stays_pending() {
    let mut bus = bus_on(3);
    let outcome = replay(&mut bus, &readable(Vec::new()));
    assert_eq!(outcome, Outcome { ending: Ending::Pending, polls: 1, reads: 0 });
    assert!(bus.message().is_empty());
}
