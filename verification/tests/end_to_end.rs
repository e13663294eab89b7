use finshir::config::ReportConfig;
use finshir::testing::global::{generate_report, init_report, update_report};
use finshir::testing::portions::get_portions;
use finshir::testing::{
    scheduler_handle_event, scheduler_next_action, SchedulerAction, SchedulerEvent,
    SchedulerState, Worker, WorkerAction, WorkerEvent,
};

// One worker over one configured portion, driven through a whole successful
// cycle and then cancelled: the bytes the machine asks the shell to write are
// exactly the portion "abc", the run ends with exit code zero, and the final
// snapshot counts the connection and the transmission. The actual socket work
// sits in the unverified shell; here the write outcomes are replayed.
#[test]
fn single_worker_sends_one_portion_then_cancels() {
    let portions = get_portions(Some("[\"abc\"]")).expect("one portion failed to load");
    let stats = init_report(
        &ReportConfig {
            json_report: None,
            xml_report: None,
            text_report: None,
        },
        0,
    );
    let mut worker = Worker::new(1);

    // the worker asks for a connection first
    assert!(matches!(worker.next_action(&portions), WorkerAction::Connect));
    if let Some(update) = worker.handle_event(&portions, WorkerEvent::ConnectSucceeded) {
        update_report(&stats, update);
    }

    // the worker asks for one write, of exactly the portion's bytes
    let sent: Vec<u8> = match worker.next_action(&portions) {
        WorkerAction::Write { portion } => portions.portion(portion).clone(),
        other => panic!("a write was expected, not {:?}", other),
    };
    assert_eq!(sent.as_slice(), b"abc", "the worker would send different data");
    if let Some(update) = worker.handle_event(&portions, WorkerEvent::WriteSucceeded) {
        update_report(&stats, update);
    }

    // a minimal test duration: cancellation arrives at the next suspension
    // point, and the worker stops without blocking
    assert!(matches!(worker.next_action(&portions), WorkerAction::SleepPacing));
    assert_eq!(worker.handle_event(&portions, WorkerEvent::Cancelled), None);
    assert!(matches!(worker.next_action(&portions), WorkerAction::Stop));

    let snap = generate_report(&stats, 1);
    assert!(snap.total_connections >= 1);
    assert!(snap.total_transmissions >= 1);
    assert_eq!(snap.successful_transmissions, 1);
    assert_eq!(snap.total_bytes_sent, 3);

    // the completed run exits with code zero
    let s = scheduler_handle_event(SchedulerState::Running, SchedulerEvent::DurationElapsed);
    assert!(matches!(
        scheduler_next_action(s),
        SchedulerAction::Exit { exit_code: 0 }
    ));
}
