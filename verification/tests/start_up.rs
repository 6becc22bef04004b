use hvc_bus::bootstrap::{prepare, Boot, BootAction, BootEvent, PATH, PROBE};
use hvc_bus::bus::{Action, Event, POLLIN};
use hvc_bus::error::{exit_report, BootError, BusError, Stage};

fn step(boot: Boot, event: BootEvent) -> (Boot, BootAction) {
    prepare(boot, event)
}

/// Takes the start-up to the point where the probe has been written to `fd`.
fn probed(fd: i32) -> Boot {
    let (boot, action) = step(Boot::Idle, BootEvent::Begin);
    assert!(matches!(action, BootAction::Open { path } if path == "/dev/hvc0"));
    let (boot, action) = step(boot, BootEvent::Opened(Ok(fd)));
    match action {
        BootAction::Write { fd: target, bytes } => {
            assert_eq!(target, fd);
            assert_eq!(bytes, b" { \"type\": \"list\" } ".to_vec());
        }
        other => panic!("the probe was due, not {:?}", other),
    }
    boot
}

/// Takes the start-up to the point where the answer is being read.
fn listening(fd: i32) -> Boot {
    let (boot, action) = step(probed(fd), BootEvent::Written(Ok(20)));
    match action {
        BootAction::Device(wait) => {
            assert_eq!(wait, Action::Poll { fd, events: 1, timeout: 10000 })
        }
        other => panic!("a wait was due, not {:?}", other),
    }
    boot
}

fn abort_of(action: BootAction) -> (BootError, Option<i32>) {
    match action {
        BootAction::Abort { error, close } => (error, close),
        other => panic!("an abort was due, not {:?}", other),
    }
}

#[test]
fn fixed_path_and_probe() {
    assert_eq!(PATH, "/dev/hvc0");
    assert_eq!(PROBE, " { \"type\": \"list\" } ");
    assert_eq!(PROBE.len(), 20);
}

#[test]
fn start_up_with_short_answer() {
    let boot = listening(3);
    let (boot, action) = step(
        boot,
        BootEvent::Device(Event::Polled { ready: 1, revents: POLLIN }),
    );
    match action {
        BootAction::Device(read) => assert_eq!(read, Action::Read { fd: 3, len: 1024 }),
        other => panic!("a read was due, not {:?}", other),
    }
    let answer = b"[\"console\",\"net0\"]".to_vec();
    let (boot, action) = step(boot, BootEvent::Device(Event::Chunk(answer.clone())));
    assert!(matches!(boot, Boot::Over));
    match action {
        BootAction::Ready { bus, report } => {
            assert_eq!(report, answer);
            assert_eq!(bus.message(), &answer);
            assert_eq!(bus.borrow_raw(), 3);
            let mut bus = bus;
            assert_eq!(bus.read_msg(Event::Start), Action::Deliver);
        }
        other => panic!("the start-up should be ready, not {:?}", other),
    }
}

#[test]
fn start_up_with_answer_over_two_chunks() {
    let boot = listening(6);
    let (boot, _) = step(
        boot,
        BootEvent::Device(Event::Polled { ready: 1, revents: POLLIN }),
    );
    let head = vec![b'a'; 1024];
    let (boot, action) = step(boot, BootEvent::Device(Event::Chunk(head.clone())));
    match action {
        BootAction::Device(read) => assert_eq!(read, Action::Read { fd: 6, len: 1024 }),
        other => panic!("a further read was due, not {:?}", other),
    }
    assert!(matches!(boot, Boot::Listening(_)));
    let (_, action) = step(boot, BootEvent::Device(Event::Chunk(b"bc".to_vec())));
    let mut whole = head;
    whole.extend_from_slice(b"bc");
    match action {
        BootAction::Ready { bus, report } => {
            assert_eq!(report, whole);
            assert_eq!(bus.message(), &whole);
        }
        other => panic!("the start-up should be ready, not {:?}", other),
    }
}

#[test]
fn failed_open_aborts_without_handle() {
    let (boot, _) = step(Boot::Idle, BootEvent::Begin);
    let (boot, action) = step(boot, BootEvent::Opened(Err(2)));
    assert!(matches!(boot, Boot::Over));
    let (error, close) = abort_of(action);
    assert_eq!(
        error,
        BootError { stage: Stage::Open, cause: BusError::Open { errno: 2 } }
    );
    assert_eq!(close, None);
}

#[test]
fn failed_write_aborts_and_closes() {
    let (boot, action) = step(probed(8), BootEvent::Written(Err(32)));
    assert!(matches!(boot, Boot::Over));
    let (error, close) = abort_of(action);
    assert_eq!(
        error,
        BootError { stage: Stage::Write, cause: BusError::Write { errno: 32 } }
    );
    assert_eq!(close, Some(8));
}

#[test]
fn timeout_aborts_and_closes() {
    let (boot, action) = step(
        listening(8),
        BootEvent::Device(Event::Polled { ready: 0, revents: 0 }),
    );
    assert!(matches!(boot, Boot::Over));
    let (error, close) = abort_of(action);
    assert_eq!(error, BootError { stage: Stage::Read, cause: BusError::Timeout });
    assert_eq!(close, Some(8));
}

#[test]
fn failed_wait_aborts_and_closes() {
    let (_, action) = step(
        listening(8),
        BootEvent::Device(Event::Polled { ready: -1, revents: 0 }),
    );
    let (error, close) = abort_of(action);
    assert_eq!(error, BootError { stage: Stage::Read, cause: BusError::Poll });
    assert_eq!(close, Some(8));
}

#[test]
fn spurious_readiness_aborts_and_closes() {
    let (_, action) = step(
        listening(8),
        BootEvent::Device(Event::Polled { ready: 1, revents: 8 }),
    );
    let (error, close) = abort_of(action);
    assert_eq!(
        error,
        BootError { stage: Stage::Read, cause: BusError::SpuriousReadiness }
    );
    assert_eq!(close, Some(8));
}

#[test]
fn failed_read_partway_aborts_and_closes() {
    let (boot, _) = step(
        listening(8),
        BootEvent::Device(Event::Polled { ready: 1, revents: POLLIN }),
    );
    let (boot, _) = step(boot, BootEvent::Device(Event::Chunk(vec![1; 1024])));
    let (boot, action) = step(boot, BootEvent::Device(Event::ReadFailed { errno: 5 }));
    assert!(matches!(boot, Boot::Over));
    let (error, close) = abort_of(action);
    assert_eq!(
        error,
        BootError { stage: Stage::Read, cause: BusError::Read { errno: 5 } }
    );
    assert_eq!(close, Some(8));
}

#[test]
fn event_out_of_turn_changes_nothing() {
    let (boot, action) = step(Boot::Idle, BootEvent::Opened(Ok(3)));
    assert!(matches!(boot, Boot::Idle));
    assert!(matches!(action, BootAction::Unexpected));

    let (boot, _) = step(Boot::Idle, BootEvent::Begin);
    let (boot, action) = step(boot, BootEvent::Written(Ok(20)));
    assert!(matches!(boot, Boot::Opening));
    assert!(matches!(action, BootAction::Unexpected));

    let (boot, action) = step(probed(3), BootEvent::Begin);
    assert!(matches!(action, BootAction::Unexpected));
    match boot {
        Boot::Probing(bus) => assert_eq!(bus.borrow_raw(), 3),
        other => panic!("the probe should still be under way, not {:?}", other),
    }

    let (boot, action) = step(listening(3), BootEvent::Written(Ok(20)));
    assert!(matches!(action, BootAction::Unexpected));
    assert!(matches!(boot, Boot::Listening(_)));

    let (boot, action) = step(Boot::Over, BootEvent::Begin);
    assert!(matches!(boot, Boot::Over));
    assert!(matches!(action, BootAction::Unexpected));
}

#[test]
fn messages_of_each_failure() {
    assert_eq!(BusError::Open { errno: 2 }.message(), "Could not access the bus");
    assert_eq!(BusError::Poll.message(), "Poll failed");
    assert_eq!(BusError::Timeout.message(), "Poll reached timeout");
    assert_eq!(BusError::SpuriousReadiness.message(), "Poll returned nothing");
    assert_eq!(BusError::Read { errno: 5 }.message(), "Could not read from poll");
    assert_eq!(BusError::Write { errno: 32 }.message(), "Could not write to the bus");
    assert_eq!(BusError::Close { errno: 9 }.message(), "Could not close the bus");
}

#[test]
fn error_numbers_of_each_failure() {
    assert_eq!(BusError::Open { errno: 2 }.errno(), Some(2));
    assert_eq!(BusError::Read { errno: 5 }.errno(), Some(5));
    assert_eq!(BusError::Write { errno: 32 }.errno(), Some(32));
    assert_eq!(BusError::Close { errno: 9 }.errno(), Some(9));
    assert_eq!(BusError::Poll.errno(), None);
    assert_eq!(BusError::Timeout.errno(), None);
    assert_eq!(BusError::SpuriousReadiness.errno(), None);
}

#[test]
fn contexts_of_each_stage() {
    assert_eq!(Stage::Open.context(), "Could not create access to the bus");
    assert_eq!(Stage::Write.context(), "Could not write to the bus");
    assert_eq!(Stage::Read.context(), "Could not read result from list call");
}

#[test]
fn chain_of_failed_open() {
    let error = BootError { stage: Stage::Open, cause: BusError::Open { errno: 2 } };
    assert_eq!(
        error.chain("ENOENT: No such file or directory"),
        vec![
            "Could not create access to the bus".to_string(),
            "Could not access the bus".to_string(),
            "ENOENT: No such file or directory".to_string(),
        ]
    );
}

#[test]
fn chain_of_failed_write() {
    let error = BootError { stage: Stage::Write, cause: BusError::Write { errno: 32 } };
    assert_eq!(
        error.chain("EPIPE: Broken pipe"),
        vec!["Could not write to the bus".to_string(), "EPIPE: Broken pipe".to_string()]
    );
}

#[test]
fn chain_of_timeout_has_no_os_text() {
    let error = BootError { stage: Stage::Read, cause: BusError::Timeout };
    assert_eq!(
        error.chain("unused"),
        vec![
            "Could not read result from list call".to_string(),
            "Poll reached timeout".to_string(),
        ]
    );
}

#[test]
fn chain_of_failed_read() {
    let error = BootError { stage: Stage::Read, cause: BusError::Read { errno: 5 } };
    assert_eq!(
        error.chain("EIO: I/O error"),
        vec![
            "Could not read result from list call".to_string(),
            "Could not read from poll".to_string(),
            "EIO: I/O error".to_string(),
        ]
    );
}

#[test]
fn report_of_a_chain() {
    let chain = vec![
        "Could not create access to the bus".to_string(),
        "Could not access the bus".to_string(),
        "ENOENT: No such file or directory".to_string(),
    ];
    assert_eq!(
        exit_report(&chain),
        "An error has occurred; Reason:\n\tCould not create access to the bus\n\nStacktrace:\n\t- Could not access the bus\n\t- ENOENT: No such file or directory\n"
    );
}

#[test]
fn report_of_a_single_layer() {
    let chain = vec!["Poll failed".to_string()];
    assert_eq!(
        exit_report(&chain),
        "An error has occurred; Reason:\n\tPoll failed\n\nStacktrace:\n"
    );
}

#[test]
fn report_of_an_empty_chain() {
    let chain: Vec<String> = Vec::new();
    assert_eq!(
        exit_report(&chain),
        "An error has occurred; Reason:\n\t\n\nStacktrace:\n"
    );
}

#[test]
fn described_open_failure_ends_with_os_words() {
    let error = BootError { stage: Stage::Open, cause: BusError::Open { errno: 2 } };
    assert_eq!(
        error.describe(),
        vec![
            "Could not create access to the bus".to_string(),
            "Could not access the bus".to_string(),
            "ENOENT: No such file or directory".to_string(),
        ]
    );
}

#[test]
fn described_write_failure_ends_with_os_words() {
    let error = BootError { stage: Stage::Write, cause: BusError::Write { errno: 5 } };
    assert_eq!(
        error.describe(),
        vec!["Could not write to the bus".to_string(), "EIO: I/O error".to_string()]
    );
}

#[test]
fn described_timeout_has_no_os_words() {
    let error = BootError { stage: Stage::Read, cause: BusError::Timeout };
    assert_eq!(
        error.describe(),
        vec![
            "Could not read result from list call".to_string(),
            "Poll reached timeout".to_string(),
        ]
    );
    assert_eq!(error.describe(), error.chain(""));
}
