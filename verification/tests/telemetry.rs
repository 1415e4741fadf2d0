use mqtt_node::net::telemetry::{NetworkError, QoS, Retain, SessionError, TelemetryClient};
use mqtt_node::net::MQTT_MESSAGE_SIZE_MAX;
use mqtt_node::scheduler::{Scheduler, Task};
use mqtt_node::tasks::telemetry_task;
use mqtt_node::telemetry::Telemetry;

#[test]
fn a_sample_goes_out_at_most_once_and_is_not_retained() {
    let client = TelemetryClient::new("dt/dummy/node/02-00-00-03-02-00");
    let payload = [0x7b, 0x22, 0x64, 0x22, 0x3a, 0x31, 0x7d];
    let publication = client.publish::<()>(Ok(&payload)).unwrap();
    assert_eq!(publication.topic, "dt/dummy/node/02-00-00-03-02-00/telemetry");
    assert_eq!(publication.payload, &payload[..]);
    assert_eq!(publication.qos, QoS::AtMostOnce);
    assert_eq!(publication.retain, Retain::NotRetained);
}

#[test]
fn a_payload_may_fill_a_message() {
    assert_eq!(MQTT_MESSAGE_SIZE_MAX, 512);
    let client = TelemetryClient::new("p");
    let payload = [0x20u8; 512];
    assert_eq!(client.publish::<()>(Ok(&payload)).unwrap().payload.len(), 512);
    assert_eq!(client.publish::<()>(Ok(&[])).unwrap().payload.len(), 0);
}

#[test]
fn a_sample_that_does_not_fit_is_skipped() {
    let client = TelemetryClient::new("p");
    let payload = [0x20u8; 513];
    assert!(client.publish::<()>(Ok(&payload)).is_none());
    let payload = vec![0x20u8; 4_096];
    assert!(client.publish::<()>(Ok(&payload)).is_none());
}

#[test]
fn a_sample_that_could_not_be_serialised_is_skipped() {
    let client = TelemetryClient::new("p");
    assert!(client.publish(Err("buffer full")).is_none());
    assert!(client.publish(Err(())).is_none());
}

#[test]
fn session_failures_are_reported_except_a_missing_address() {
    let mut client = TelemetryClient::new("p");
    assert_eq!(client.update(Ok(())), None);
    assert_eq!(client.update(Err(SessionError::Network(NetworkError::NoIpAddress))), None);
    let reported = [
        SessionError::Network(NetworkError::NoSocket),
        SessionError::Network(NetworkError::ConnectionFailure),
        SessionError::Network(NetworkError::ReadFailure),
        SessionError::Network(NetworkError::WriteFailure),
        SessionError::Network(NetworkError::Unsupported),
        SessionError::WriteFail,
        SessionError::NotReady,
        SessionError::Unsupported,
        SessionError::ProvidedClientIdTooLong,
        SessionError::Failed(0),
        SessionError::Failed(0x87),
        SessionError::Protocol,
        SessionError::SessionReset,
        SessionError::Clock,
    ];
    for error in reported {
        assert_eq!(client.update(Err(error)), Some(error));
    }
    assert_eq!(client.publish::<()>(Ok(&[])).unwrap().topic, "p/telemetry");
}

#[test]
fn each_sample_counts_one_up() {
    let mut telemetry = Telemetry::default();
    assert_eq!(telemetry.dummy, 0);
    assert_eq!(telemetry_task(&mut telemetry), Telemetry { dummy: 1 });
    assert_eq!(telemetry_task(&mut telemetry), Telemetry { dummy: 2 });
    assert_eq!(telemetry, Telemetry { dummy: 2 });
}

#[test]
fn the_sample_count_starts_over_when_it_runs_out() {
    let mut telemetry = Telemetry { dummy: u32::MAX - 1 };
    assert_eq!(telemetry_task(&mut telemetry).dummy, u32::MAX);
    assert_eq!(telemetry_task(&mut telemetry).dummy, 0);
    assert_eq!(telemetry_task(&mut telemetry).dummy, 1);
}

#[test]
fn a_failed_publish_does_not_stop_the_next_one() {
    let client = TelemetryClient::new("dt/dummy/node/02-00-00-03-02-00");
    let mut scheduler = Scheduler::new();
    let mut telemetry = Telemetry::default();
    let mut attempts: Vec<(u64, u32)> = Vec::new();
    let connected = false;

    assert_eq!(scheduler.spawn(Task::Telemetry, 0), Ok(()));
    let mut now: u64 = 0;
    while now <= 2_500 {
        if let Some(task) = scheduler.dispatch(now) {
            assert_eq!(task, Task::Telemetry);
            let sample = telemetry_task(&mut telemetry);
            let payload = [0x30 + sample.dummy.to_le_bytes()[0]];
            let publication = client.publish::<()>(Ok(&payload)).unwrap();
            assert_eq!(publication.qos, QoS::AtMostOnce);
            let sent: Result<(), SessionError> =
                if connected { Ok(()) } else { Err(SessionError::NotReady) };
            assert!(sent.is_err());
            attempts.push((now, sample.dummy));
            assert_eq!(scheduler.complete(task, now), Ok(()));
        }
        now += 1;
    }
    assert_eq!(attempts, vec![(0, 1), (1_000, 2), (2_000, 3)]);
    assert_eq!(scheduler.due(Task::Telemetry), Some(3_000));
}

#[test]
fn a_skipped_sample_does_not_stop_the_next_one() {
    let client = TelemetryClient::new("dt/dummy/node/02-00-00-03-02-00");
    let mut scheduler = Scheduler::new();
    let mut telemetry = Telemetry::default();
    let mut sent: Vec<(u64, u32)> = Vec::new();
    let mut skipped: Vec<(u64, u32)> = Vec::new();
    let oversized = [0x20u8; 600];

    scheduler.start(0);
    let mut now: u64 = 0;
    while now <= 2_500 {
        while let Some(task) = scheduler.dispatch(now) {
            if task == Task::Telemetry {
                let sample = telemetry_task(&mut telemetry);
                let small = [0x30 + sample.dummy.to_le_bytes()[0]];
                let serialised: Result<&[u8], ()> =
                    if sample.dummy == 2 { Ok(&oversized) } else { Ok(&small) };
                match client.publish(serialised) {
                    Some(_) => sent.push((now, sample.dummy)),
                    None => skipped.push((now, sample.dummy)),
                }
            }
            assert_eq!(scheduler.complete(task, now), Ok(()));
        }
        now += 1;
    }
    assert_eq!(sent, vec![(0, 1), (2_000, 3)]);
    assert_eq!(skipped, vec![(1_000, 2)]);
    assert_eq!(scheduler.due(Task::Telemetry), Some(3_000));
}
