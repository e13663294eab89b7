use finshir::report::Update;
use finshir::testing::portions::{get_portions, PortionsError};
use finshir::testing::{
    deadline_passed, scheduler_handle_event, scheduler_next_action, SchedulerAction,
    SchedulerEvent, SchedulerState, Worker, WorkerAction, WorkerEvent,
};

#[test]
fn missing_file_yields_hundred_spaces() {
    let portions = get_portions(None).expect("the default portion set failed to load");
    assert_eq!(portions.len(), 100);
    for i in 0..portions.len() {
        assert_eq!(portions.portion(i).as_slice(), b" ");
    }
}

#[test]
fn loading_same_contents_twice_is_equal() {
    let text = "[\"first portion\", \"second\", \"\"]";
    let once = get_portions(Some(text)).expect("a well-formed portions file was rejected");
    let twice = get_portions(Some(text)).expect("a well-formed portions file was rejected");
    assert_eq!(once, twice);

    assert_eq!(once.len(), 3);
    assert_eq!(once.portion(0).as_slice(), b"first portion");
    assert_eq!(once.portion(1).as_slice(), b"second");
    assert_eq!(once.portion(2).as_slice(), b"");

    let defaults_once = get_portions(None).expect("the default portion set failed to load");
    let defaults_twice = get_portions(None).expect("the default portion set failed to load");
    assert_eq!(defaults_once, defaults_twice);
}

#[test]
fn malformed_portions_are_rejected() {
    let check = |text: &str| {
        assert_eq!(
            get_portions(Some(text)).unwrap_err(),
            PortionsError::Malformed,
            "a malformed portions file was accepted"
        )
    };

    check("");
    check("{\"a\": 1}");
    check("[1, 2, 3]");
    check("[\"fine\", 7]");
    check("\"just a string\"");
    check("[\"unterminated\"");
}

#[test]
fn empty_portion_set_is_legal() {
    let portions = get_portions(Some("[]")).expect("an empty array was rejected");
    assert_eq!(portions.len(), 0);

    // a worker over an empty set reconnects without ever writing
    let mut worker = Worker::new(1);
    assert!(matches!(worker.next_action(&portions), WorkerAction::Connect));
    let update = worker.handle_event(&portions, WorkerEvent::ConnectSucceeded);
    assert_eq!(update, Some(Update::ConnectionSucceed));
    assert!(matches!(worker.next_action(&portions), WorkerAction::Connect));
}

#[test]
fn exhausted_writes_emit_one_failure_then_reconnect() {
    let portions = get_portions(Some("[\"abc\", \"de\"]")).unwrap();
    let max_attempts = 3;
    let mut worker = Worker::new(max_attempts);

    assert!(matches!(worker.next_action(&portions), WorkerAction::Connect));
    assert_eq!(
        worker.handle_event(&portions, WorkerEvent::ConnectSucceeded),
        Some(Update::ConnectionSucceed)
    );

    // every write attempt fails: nothing is emitted until the budget is spent
    assert!(matches!(
        worker.next_action(&portions),
        WorkerAction::Write { portion: 0 }
    ));
    assert_eq!(worker.handle_event(&portions, WorkerEvent::WriteFailed), None);
    assert!(matches!(
        worker.next_action(&portions),
        WorkerAction::Write { portion: 0 }
    ));
    assert_eq!(worker.handle_event(&portions, WorkerEvent::WriteFailed), None);
    assert!(matches!(
        worker.next_action(&portions),
        WorkerAction::Write { portion: 0 }
    ));
    assert_eq!(
        worker.handle_event(&portions, WorkerEvent::WriteFailed),
        Some(Update::TransmissionFailed)
    );

    // the transport is abandoned: the next step is a reconnect, not a write
    assert!(matches!(worker.next_action(&portions), WorkerAction::Connect));
}

#[test]
fn retries_then_success_emit_one_transmission_with_byte_count() {
    let portions = get_portions(Some("[\"abc\"]")).unwrap();
    let max_attempts = 5;
    let mut worker = Worker::new(max_attempts);

    assert_eq!(
        worker.handle_event(&portions, WorkerEvent::ConnectSucceeded),
        Some(Update::ConnectionSucceed)
    );

    // two failed attempts, then the third goes through: exactly one success
    // event, carrying the portion's byte count
    assert_eq!(worker.handle_event(&portions, WorkerEvent::WriteFailed), None);
    assert_eq!(worker.handle_event(&portions, WorkerEvent::WriteFailed), None);
    assert_eq!(
        worker.handle_event(&portions, WorkerEvent::WriteSucceeded),
        Some(Update::TransmissionSucceed(3))
    );

    // then the pacing delay, and the cycle is over: a deliberate reconnect
    assert!(matches!(worker.next_action(&portions), WorkerAction::SleepPacing));
    assert_eq!(worker.handle_event(&portions, WorkerEvent::SleepFinished), None);
    assert!(matches!(worker.next_action(&portions), WorkerAction::Connect));
}

#[test]
fn connect_failures_retry_after_waiting() {
    let portions = get_portions(None).unwrap();
    let mut worker = Worker::new(1);

    assert_eq!(
        worker.handle_event(&portions, WorkerEvent::ConnectFailed),
        Some(Update::ConnectionFailed)
    );
    assert!(matches!(worker.next_action(&portions), WorkerAction::SleepRetry));
    assert_eq!(worker.handle_event(&portions, WorkerEvent::SleepFinished), None);
    assert!(matches!(worker.next_action(&portions), WorkerAction::Connect));
}

#[test]
fn cancellation_stops_a_worker_at_any_suspension_point() {
    let portions = get_portions(Some("[\"abc\"]")).unwrap();

    // cancelled while connecting
    let mut worker = Worker::new(2);
    assert_eq!(worker.handle_event(&portions, WorkerEvent::Cancelled), None);
    assert!(matches!(worker.next_action(&portions), WorkerAction::Stop));

    // cancelled before a write
    let mut worker = Worker::new(2);
    worker.handle_event(&portions, WorkerEvent::ConnectSucceeded);
    assert_eq!(worker.handle_event(&portions, WorkerEvent::Cancelled), None);
    assert!(matches!(worker.next_action(&portions), WorkerAction::Stop));

    // cancelled before the pacing sleep
    let mut worker = Worker::new(2);
    worker.handle_event(&portions, WorkerEvent::ConnectSucceeded);
    worker.handle_event(&portions, WorkerEvent::WriteSucceeded);
    assert_eq!(worker.handle_event(&portions, WorkerEvent::Cancelled), None);
    assert!(matches!(worker.next_action(&portions), WorkerAction::Stop));
}

#[test]
fn scheduler_runs_to_exit_zero() {
    let s = SchedulerState::Loading;
    assert!(matches!(scheduler_next_action(s), SchedulerAction::LoadPortions));
    let s = scheduler_handle_event(s, SchedulerEvent::PortionsLoaded);
    assert!(matches!(
        scheduler_next_action(s),
        SchedulerAction::SleepInitialWait
    ));
    let s = scheduler_handle_event(s, SchedulerEvent::WaitElapsed);
    assert!(matches!(scheduler_next_action(s), SchedulerAction::RunWorkers));
    let s = scheduler_handle_event(s, SchedulerEvent::DurationElapsed);
    assert!(matches!(
        scheduler_next_action(s),
        SchedulerAction::Exit { exit_code: 0 }
    ));
}

#[test]
fn failed_portions_load_exits_one_before_launch() {
    let s = scheduler_handle_event(SchedulerState::Loading, SchedulerEvent::PortionsFailed);
    assert!(matches!(
        scheduler_next_action(s),
        SchedulerAction::Exit { exit_code: 1 }
    ));
}

#[test]
fn operator_interrupt_short_circuits_with_exit_zero() {
    for s in [
        SchedulerState::Loading,
        SchedulerState::Waiting,
        SchedulerState::Running,
    ] {
        let after = scheduler_handle_event(s, SchedulerEvent::Interrupted);
        assert!(matches!(
            scheduler_next_action(after),
            SchedulerAction::Exit { exit_code: 0 }
        ));
    }
}

#[test]
fn deadline_is_measured_from_spawn() {
    assert!(!deadline_passed(100, 50, 149));
    assert!(deadline_passed(100, 50, 150));
    assert!(deadline_passed(100, 50, 151));
    // a zero test duration is over at once
    assert!(deadline_passed(7, 0, 7));
    // a deadline past the largest representable instant never passes
    assert!(!deadline_passed(u64::MAX, 1, u64::MAX));
}
