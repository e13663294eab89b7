use finshir::config::ReportConfig;
use finshir::report::{Report, ReportType, Update};
use finshir::testing::global::{generate_report, init_report, update_report};

fn unspecified() -> ReportConfig {
    ReportConfig {
        json_report: None,
        xml_report: None,
        text_report: None,
    }
}

#[test]
fn is_initial_empty_report() {
    let report = Report::new(&unspecified(), 0);

    assert_eq!(report.total_bytes_sent(), 0);
    assert_eq!(report.total_errors(), 0);

    assert_eq!(report.successful_connections(), 0);
    assert_eq!(report.failed_connections(), 0);
    assert_eq!(report.total_connections(), 0);

    assert_eq!(report.successful_transmissions(), 0);
    assert_eq!(report.failed_transmissions(), 0);
    assert_eq!(report.total_transmissions(), 0);
}

#[test]
fn is_correct_report_type() {
    // The tests won't create files with these names, they are defined just to be
    // applied by `ReportConfig`.
    let json = String::from("report.json");
    let xml = String::from("report.xml");
    let text = String::from("report.txt");

    assert_eq!(
        *Report::new(&unspecified(), 0).report_type(),
        ReportType::Unspecified
    );

    assert_eq!(
        *Report::new(
            &ReportConfig {
                json_report: Some(json.clone()),
                xml_report: None,
                text_report: None,
            },
            0
        )
        .report_type(),
        ReportType::Json(json.clone())
    );

    assert_eq!(
        *Report::new(
            &ReportConfig {
                json_report: None,
                xml_report: Some(xml.clone()),
                text_report: None,
            },
            0
        )
        .report_type(),
        ReportType::Xml(xml.clone())
    );

    assert_eq!(
        *Report::new(
            &ReportConfig {
                json_report: None,
                xml_report: None,
                text_report: Some(text.clone()),
            },
            0
        )
        .report_type(),
        ReportType::Text(text.clone())
    );
}

#[test]
fn report_updates_correctly() {
    let mut report = Report::new(&unspecified(), 0);

    // Let's assume that we've got one connection established
    report.update(Update::ConnectionSucceed);

    assert_eq!(report.total_bytes_sent(), 0);
    assert_eq!(report.total_errors(), 0);

    assert_eq!(report.successful_connections(), 1);
    assert_eq!(report.failed_connections(), 0);
    assert_eq!(report.total_connections(), 1);

    assert_eq!(report.successful_transmissions(), 0);
    assert_eq!(report.failed_transmissions(), 0);
    assert_eq!(report.total_transmissions(), 0);

    // Let's assume that we've got one connection failed
    report.update(Update::ConnectionFailed);

    assert_eq!(report.total_bytes_sent(), 0);
    assert_eq!(report.total_errors(), 1);

    assert_eq!(report.successful_connections(), 1);
    assert_eq!(report.failed_connections(), 1);
    assert_eq!(report.total_connections(), 2);

    assert_eq!(report.successful_transmissions(), 0);
    assert_eq!(report.failed_transmissions(), 0);
    assert_eq!(report.total_transmissions(), 0);

    // Let's assume that we've send 7456 bytes without errors
    report.update(Update::TransmissionSucceed(7456));

    assert_eq!(report.total_bytes_sent(), 7456);
    assert_eq!(report.total_errors(), 1);

    assert_eq!(report.successful_connections(), 1);
    assert_eq!(report.failed_connections(), 1);
    assert_eq!(report.total_connections(), 2);

    assert_eq!(report.successful_transmissions(), 1);
    assert_eq!(report.failed_transmissions(), 0);
    assert_eq!(report.total_transmissions(), 1);

    // Let's assume that we've got one failed transmission
    report.update(Update::TransmissionFailed);

    assert_eq!(report.total_bytes_sent(), 7456);
    assert_eq!(report.total_errors(), 2);

    assert_eq!(report.successful_connections(), 1);
    assert_eq!(report.failed_connections(), 1);
    assert_eq!(report.total_connections(), 2);

    assert_eq!(report.successful_transmissions(), 1);
    assert_eq!(report.failed_transmissions(), 1);
    assert_eq!(report.total_transmissions(), 2);

    // Our program logic must ALWAYS satisfy these equations
    assert_eq!(
        report.successful_connections() + report.failed_connections(),
        report.total_connections()
    );
    assert_eq!(
        report.successful_transmissions() + report.failed_transmissions(),
        report.total_transmissions()
    );
}

#[test]
fn aggregator_counts_every_event() {
    let stats = init_report(&unspecified(), 100);

    // four connection outcomes, three transmission outcomes
    update_report(&stats, Update::ConnectionSucceed);
    update_report(&stats, Update::ConnectionSucceed);
    update_report(&stats, Update::ConnectionFailed);
    update_report(&stats, Update::ConnectionSucceed);
    update_report(&stats, Update::TransmissionSucceed(10));
    update_report(&stats, Update::TransmissionFailed);
    update_report(&stats, Update::TransmissionSucceed(32));

    let snap = generate_report(&stats, 250);

    assert_eq!(snap.successful_connections, 3);
    assert_eq!(snap.failed_connections, 1);
    assert_eq!(snap.total_connections, 4);
    assert_eq!(
        snap.successful_connections + snap.failed_connections,
        snap.total_connections
    );

    assert_eq!(snap.successful_transmissions, 2);
    assert_eq!(snap.failed_transmissions, 1);
    assert_eq!(snap.total_transmissions, 3);
    assert_eq!(
        snap.successful_transmissions + snap.failed_transmissions,
        snap.total_transmissions
    );

    assert_eq!(snap.total_bytes_sent, 42);
    assert_eq!(snap.total_errors, 2);
    assert_eq!(snap.elapsed_ms, 150);
}

#[test]
fn aggregator_counts_many_interleaved_events() {
    let stats = init_report(&unspecified(), 0);
    for _ in 0..800 {
        update_report(&stats, Update::ConnectionSucceed);
        update_report(&stats, Update::ConnectionFailed);
    }

    let snap = generate_report(&stats, 0);
    assert_eq!(snap.successful_connections, 800);
    assert_eq!(snap.failed_connections, 800);
    assert_eq!(snap.total_connections, 1600);
}
