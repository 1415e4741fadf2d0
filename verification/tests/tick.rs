use mqtt_node::net::telemetry::{NetworkError, SessionError};
use mqtt_node::net::{
    Fault, NetworkState, NetworkUsers, PollError, TickAction, TickEvent, TickPhase, TickStep,
};
use mqtt_node::scheduler::{Scheduler, Task};
use mqtt_node::settings::Settings;
use mqtt_node::tasks::{poll_ip_stack, settings_update};

const MAC: [u8; 6] = [0x02, 0x00, 0x00, 0x03, 0x02, 0x00];

fn run_tick(
    users: &mut NetworkUsers,
    telemetry: Result<(), SessionError>,
    stack: Result<bool, PollError>,
    settings: Result<bool, SessionError>,
) -> NetworkState {
    assert_eq!(users.update(TickEvent::Start).action, TickAction::PollTelemetry);
    assert_eq!(users.update(TickEvent::TelemetryPolled(telemetry)).action, TickAction::PollStack);
    assert_eq!(users.update(TickEvent::StackPolled(stack)).action, TickAction::PollSettings);
    match users.update(TickEvent::SettingsPolled(settings)).action {
        TickAction::Done(outcome) => outcome,
        other => panic!("the tick did not end: {:?}", other),
    }
}

#[test]
fn new_settings_outrank_every_stack_outcome() {
    let telemetry = [Ok(()), Err(SessionError::NotReady)];
    let stack = [Ok(false), Ok(true), Err(PollError::Network), Err(PollError::Time)];
    let mut users = NetworkUsers::new("node", MAC);
    for t in telemetry {
        for s in stack {
            assert_eq!(run_tick(&mut users, t, s, Ok(true)), NetworkState::SettingsChanged);
        }
    }
}

#[test]
fn without_new_settings_the_stack_outcome_stands() {
    let mut users = NetworkUsers::new("node", MAC);
    let quiet = [Ok(false), Err(SessionError::SessionReset)];
    for settings in quiet {
        assert_eq!(run_tick(&mut users, Ok(()), Ok(false), settings), NetworkState::NoChange);
        assert_eq!(run_tick(&mut users, Ok(()), Ok(true), settings), NetworkState::Updated);
        assert_eq!(
            run_tick(&mut users, Ok(()), Err(PollError::Network), settings),
            NetworkState::Updated
        );
    }
}

#[test]
fn a_tick_starts_and_ends_idle() {
    let mut users = NetworkUsers::new("node", MAC);
    assert_eq!(users.phase, TickPhase::Idle);
    users.update(TickEvent::Start);
    assert_eq!(users.phase, TickPhase::Telemetry);
    users.update(TickEvent::TelemetryPolled(Ok(())));
    assert_eq!(users.phase, TickPhase::Stack);
    users.update(TickEvent::StackPolled(Ok(true)));
    assert_eq!(users.phase, TickPhase::Settings(mqtt_node::net::UpdateState::Updated));
    users.update(TickEvent::SettingsPolled(Ok(false)));
    assert_eq!(users.phase, TickPhase::Idle);
}

#[test]
fn a_report_out_of_turn_changes_nothing() {
    let mut users = NetworkUsers::new("node", MAC);
    assert_eq!(
        users.update(TickEvent::SettingsPolled(Ok(true))),
        TickStep { action: TickAction::Done(NetworkState::NoChange), report: None }
    );
    assert_eq!(users.phase, TickPhase::Idle);
    users.update(TickEvent::Start);
    assert_eq!(
        users.update(TickEvent::StackPolled(Err(PollError::Network))),
        TickStep { action: TickAction::PollTelemetry, report: None }
    );
    assert_eq!(users.phase, TickPhase::Telemetry);
    users.update(TickEvent::TelemetryPolled(Ok(())));
    assert_eq!(
        users.update(TickEvent::SettingsPolled(Ok(true))).action,
        TickAction::PollStack
    );
    users.update(TickEvent::StackPolled(Ok(false)));
    assert_eq!(
        users.update(TickEvent::TelemetryPolled(Ok(()))).action,
        TickAction::PollSettings
    );
    assert_eq!(
        users.update(TickEvent::SettingsPolled(Ok(false))).action,
        TickAction::Done(NetworkState::NoChange)
    );
}

#[test]
fn a_start_begins_the_tick_again() {
    let mut users = NetworkUsers::new("node", MAC);
    users.update(TickEvent::Start);
    users.update(TickEvent::TelemetryPolled(Ok(())));
    users.update(TickEvent::StackPolled(Ok(true)));
    assert_eq!(users.update(TickEvent::Start).action, TickAction::PollTelemetry);
    assert_eq!(run_tick(&mut users, Ok(()), Ok(false), Ok(false)), NetworkState::NoChange);
}

#[test]
fn faults_are_reported_except_a_missing_address() {
    let mut users = NetworkUsers::new("node", MAC);
    let no_address = SessionError::Network(NetworkError::NoIpAddress);
    users.update(TickEvent::Start);
    assert_eq!(users.update(TickEvent::TelemetryPolled(Err(no_address))).report, None);
    assert_eq!(users.update(TickEvent::StackPolled(Ok(true))).report, None);
    assert_eq!(users.update(TickEvent::SettingsPolled(Err(no_address))).report, None);

    users.update(TickEvent::Start);
    assert_eq!(
        users.update(TickEvent::TelemetryPolled(Err(SessionError::Failed(3)))).report,
        Some(Fault::Telemetry(SessionError::Failed(3)))
    );
    assert_eq!(
        users.update(TickEvent::StackPolled(Err(PollError::Time))).report,
        Some(Fault::Stack(PollError::Time))
    );
    let refused = SessionError::Network(NetworkError::ConnectionFailure);
    assert_eq!(
        users.update(TickEvent::SettingsPolled(Err(refused))),
        TickStep {
            action: TickAction::Done(NetworkState::Updated),
            report: Some(Fault::Settings(refused)),
        }
    );
}

#[test]
fn a_tick_leaves_the_link_latch_and_the_names_alone() {
    let mut users = NetworkUsers::new("node", MAC);
    users.processor.handle_link(false);
    run_tick(&mut users, Ok(()), Err(PollError::Network), Ok(true));
    assert_eq!(
        users.processor.handle_link(false).edge,
        mqtt_node::net::network_processor::LinkEdge::Steady
    );
    assert_eq!(users.settings_id.as_str(), "node-02-00-00-03-02-00-settings");
    assert_eq!(users.telemetry_id.as_str(), "node-02-00-00-03-02-00-tlm");
    assert_eq!(users.prefix.as_str(), "dt/dummy/node/02-00-00-03-02-00");
}

#[test]
fn a_settings_change_is_applied_once_and_shows_on_the_indicator() {
    let mut users = NetworkUsers::new("node", MAC);
    let mut scheduler = Scheduler::new();
    let mut settings = Settings::default();
    let mut indicator = false;
    let mut applied: u32 = 0;
    let received = Settings { led: true };

    assert_eq!(scheduler.spawn(Task::PollStack, 0), Ok(()));
    let mut now: u64 = 0;
    while now <= 50 {
        while let Some(task) = scheduler.dispatch(now) {
            match task {
                Task::PollStack => {
                    let changed = now == 20;
                    let outcome = run_tick(&mut users, Ok(()), Ok(false), Ok(changed));
                    if changed {
                        assert_eq!(outcome, NetworkState::SettingsChanged);
                    } else {
                        assert_eq!(outcome, NetworkState::NoChange);
                    }
                    let reaction = poll_ip_stack(outcome);
                    assert!(!reaction.toggle_activity);
                    if reaction.apply_settings {
                        assert_eq!(scheduler.spawn(Task::SettingsUpdate, now), Ok(()));
                    }
                }
                Task::SettingsUpdate => {
                    indicator = settings_update(&mut settings, received);
                    applied += 1;
                }
                other => panic!("{:?} was never queued", other),
            }
            assert_eq!(scheduler.complete(task, now), Ok(()));
        }
        if now < 20 {
            assert!(!indicator);
            assert_eq!(applied, 0);
        }
        now += 1;
    }
    assert_eq!(applied, 1);
    assert!(indicator);
    assert_eq!(settings, received);
    assert_eq!(scheduler.due(Task::SettingsUpdate), None);
    assert_eq!(scheduler.due(Task::PollStack), Some(60));
}
