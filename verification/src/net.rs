//! The network users of the node and the tick that drives them.
use vstd::prelude::*;
use vstd::string::*;
use crate::net::network_processor::{poll_outcome, NetworkProcessor};
use crate::net::strings::{
    empty_text, mac_text, push_mac, push_text, text_bytes, text_str, CLIENT_ID_MAX, MAC_TEXT_LEN,
    TEXT_CAPACITY,
};
use crate::net::telemetry::{session_fault, SessionError, TelemetryClient};

pub mod network_processor;
pub mod strings;
pub mod telemetry;

verus! {

/// Largest MQTT message, in bytes, that either session sends or receives.
pub const MQTT_MESSAGE_SIZE_MAX: usize = 512;

/// Longest application name, in bytes, for which every session name and
/// topic fits.
pub const APP_NAME_MAX: usize = 37;

/// What one poll of the network stack amounted to.
#[derive(Copy, Clone, Debug, PartialEq, Eq, Structural)]
pub enum UpdateState {
    /// Nothing in the stack changed.
    NoChange,
    /// The stack made progress, or the poll failed and the stack must be
    /// looked at again.
    Updated,
}

/// The outcome of one tick.
#[derive(Copy, Clone, Debug, PartialEq, Eq, Structural)]
pub enum NetworkState {
    /// New settings arrived and are to be applied.
    SettingsChanged,
    /// The stack made progress.
    Updated,
    /// Nothing happened.
    NoChange,
}

/// The bytes of a client identifier: the application name, the hardware
/// address and the client's tag, joined by hyphens.
pub open spec fn client_id_bytes(app: &str, client: &str, mac: Seq<u8>) -> Seq<u8> {
    app.spec_bytes() + "-".spec_bytes() + mac_text(mac) + "-".spec_bytes() + client.spec_bytes()
}

/// The bytes of a device's topic prefix: a fixed root, the application name
/// and the hardware address, joined by slashes.
pub open spec fn device_prefix_bytes(app: &str, mac: Seq<u8>) -> Seq<u8> {
    "dt/dummy/".spec_bytes() + app.spec_bytes() + "/".spec_bytes() + mac_text(mac)
}

/// What the separators and the fixed root come to in bytes.
pub proof fn lemma_literal_lengths()
    ensures
        "-".spec_bytes().len() == 1,
        "/".spec_bytes().len() == 1,
        "dt/dummy/".spec_bytes().len() == 9,
        "/telemetry".spec_bytes().len() == 10,
{
    reveal_strlit("-");
    reveal_strlit("/");
    reveal_strlit("dt/dummy/");
    reveal_strlit("/telemetry");
    is_ascii_spec_bytes("-");
    is_ascii_spec_bytes("/");
    is_ascii_spec_bytes("dt/dummy/");
    is_ascii_spec_bytes("/telemetry");
}

/// Get an MQTT client ID for a client.
///
/// # Args
/// * `app` - The name of the application
/// * `client` - The unique tag of the client
/// * `mac` - The MAC address of the device.
///
/// # Returns
/// A client ID that may be used for MQTT client identification. It is no
/// longer than the 64 bytes that a session accepts.
pub fn get_client_id(app: &str, client: &str, mac: [u8; 6]) -> (identifier: heapless::String<128>)
    requires
        app.spec_bytes().len() + client.spec_bytes().len() + MAC_TEXT_LEN + 2 <= CLIENT_ID_MAX,
    ensures
        text_bytes(identifier) == client_id_bytes(app, client, mac@),
        text_bytes(identifier).len() <= CLIENT_ID_MAX,
{
    proof {
        lemma_literal_lengths();
    }
    let mut identifier = empty_text();
    let _ = push_text(&mut identifier, app);
    let _ = push_text(&mut identifier, "-");
    let _ = push_mac(&mut identifier, mac);
    let _ = push_text(&mut identifier, "-");
    let _ = push_text(&mut identifier, client);
    proof {
        assert(text_bytes(identifier) =~= client_id_bytes(app, client, mac@));
    }
    identifier
}

/// Get the MQTT prefix of a device.
///
/// # Args
/// * `app` - The name of the application that is executing.
/// * `mac` - The ethernet MAC address of the device.
///
/// # Returns
/// The MQTT prefix used for this device.
pub fn get_device_prefix(app: &str, mac: [u8; 6]) -> (prefix: heapless::String<128>)
    requires
        app.spec_bytes().len() + MAC_TEXT_LEN + 10 <= TEXT_CAPACITY,
    ensures
        text_bytes(prefix) == device_prefix_bytes(app, mac@),
{
    proof {
        lemma_literal_lengths();
    }
    let mut prefix = empty_text();
    let _ = push_text(&mut prefix, "dt/dummy/");
    let _ = push_text(&mut prefix, app);
    let _ = push_text(&mut prefix, "/");
    let _ = push_mac(&mut prefix, mac);
    proof {
        assert(text_bytes(prefix) =~= device_prefix_bytes(app, mac@));
    }
    prefix
}

/// A failure of one poll of the network stack.
#[derive(Copy, Clone, Debug, PartialEq, Eq, Structural)]
pub enum PollError {
    /// The stack rejected or could not process what it found.
    Network,
    /// The clock could not be read or converted.
    Time,
}

/// Where a tick stands.
#[derive(Copy, Clone, Debug, PartialEq, Eq, Structural)]
pub enum TickPhase {
    /// No tick is running.
    Idle,
    /// The telemetry session is being driven.
    Telemetry,
    /// The network stack is being polled.
    Stack,
    /// The configuration session is being driven. The outcome of the stack
    /// poll is kept: it is the outcome of the tick unless settings changed.
    Settings(UpdateState),
}

/// What the caller reports to a tick.
#[derive(Copy, Clone, Debug, PartialEq, Eq)]
pub enum TickEvent {
    /// A new tick begins.
    Start,
    /// The telemetry session was driven, with this result.
    TelemetryPolled(Result<(), SessionError>),
    /// The stack was polled: it changed, did not change, or failed.
    StackPolled(Result<bool, PollError>),
    /// The configuration session was driven: it applied new settings, did
    /// not, or failed.
    SettingsPolled(Result<bool, SessionError>),
}

/// What a tick asks of the caller next.
#[derive(Copy, Clone, Debug, PartialEq, Eq, Structural)]
pub enum TickAction {
    /// Drive the telemetry session and drop whatever messages arrive.
    PollTelemetry,
    /// Poll the network stack once.
    PollStack,
    /// Drive the configuration session.
    PollSettings,
    /// The tick is over, with this outcome.
    Done(NetworkState),
}

/// A failure that a tick passed over and that is worth a word in the log.
#[derive(Copy, Clone, Debug, PartialEq, Eq, Structural)]
pub enum Fault {
    Telemetry(SessionError),
    Stack(PollError),
    Settings(SessionError),
}

/// The answer of a tick to one event.
#[derive(Copy, Clone, Debug, PartialEq, Eq)]
pub struct TickStep {
    pub action: TickAction,
    /// The failure to log, if the event reported one that is not expected.
    pub report: Option<Fault>,
}

/// The outcome of a tick, given what the stack poll amounted to and what the
/// configuration session reported: new settings outrank everything, and
/// without them the outcome is that of the stack poll.
pub open spec fn tick_outcome(
    processor: UpdateState,
    settings: Result<bool, SessionError>,
) -> NetworkState {
    if settings == Ok::<bool, SessionError>(true) {
        NetworkState::SettingsChanged
    } else {
        match processor {
            UpdateState::NoChange => NetworkState::NoChange,
            UpdateState::Updated => NetworkState::Updated,
        }
    }
}

/// The action that a phase is waiting on. Outside a tick there is nothing to
/// do, which reads as a tick that ended without change.
pub open spec fn awaited(phase: TickPhase) -> TickAction {
    match phase {
        TickPhase::Idle => TickAction::Done(NetworkState::NoChange),
        TickPhase::Telemetry => TickAction::PollTelemetry,
        TickPhase::Stack => TickAction::PollStack,
        TickPhase::Settings(_) => TickAction::PollSettings,
    }
}

/// The phase that follows `phase` once `event` is reported: telemetry, then
/// the stack, then the configuration session. A start begins a tick from
/// any phase; any other event that the phase is not waiting on changes
/// nothing.
pub open spec fn next_phase(phase: TickPhase, event: TickEvent) -> TickPhase {
    match (phase, event) {
        (_, TickEvent::Start) => TickPhase::Telemetry,
        (TickPhase::Telemetry, TickEvent::TelemetryPolled(_)) => TickPhase::Stack,
        (TickPhase::Stack, TickEvent::StackPolled(polled)) => TickPhase::Settings(
            poll_outcome(polled),
        ),
        (TickPhase::Settings(_), TickEvent::SettingsPolled(_)) => TickPhase::Idle,
        _ => phase,
    }
}

/// The failure to log for an event that `phase` is waiting on.
pub open spec fn fault_of(phase: TickPhase, event: TickEvent) -> Option<Fault> {
    match (phase, event) {
        (TickPhase::Telemetry, TickEvent::TelemetryPolled(polled)) => match session_fault(polled) {
            Some(error) => Some(Fault::Telemetry(error)),
            None => None,
        },
        (TickPhase::Stack, TickEvent::StackPolled(Err(error))) => Some(Fault::Stack(error)),
        (TickPhase::Settings(_), TickEvent::SettingsPolled(polled)) => match session_fault(polled) {
            Some(error) => Some(Fault::Settings(error)),
            None => None,
        },
        _ => None,
    }
}

/// The answer to `event` in `phase`.
pub open spec fn next_step(phase: TickPhase, event: TickEvent) -> TickStep {
    TickStep {
        action: match (phase, event) {
            (TickPhase::Settings(processor), TickEvent::SettingsPolled(polled)) => TickAction::Done(
                tick_outcome(processor, polled),
            ),
            _ => awaited(next_phase(phase, event)),
        },
        report: fault_of(phase, event),
    }
}

/// The three users of the network stack, the names that the two MQTT
/// sessions go by, and the tick that drives them all in turn.
pub struct NetworkUsers {
    /// Client identifier of the configuration session.
    pub settings_id: heapless::String<128>,
    /// Client identifier of the telemetry session.
    pub telemetry_id: heapless::String<128>,
    /// Topic prefix of the device, under which the configuration session
    /// subscribes.
    pub prefix: heapless::String<128>,
    pub processor: NetworkProcessor,
    pub telemetry: TelemetryClient,
    pub phase: TickPhase,
}

impl NetworkUsers {
    /// The users of the node that runs `app` on the hardware address `mac`.
    pub fn new(app: &str, mac: [u8; 6]) -> (users: Self)
        requires
            app.spec_bytes().len() <= APP_NAME_MAX,
        ensures
            text_bytes(users.settings_id) == client_id_bytes(app, "settings", mac@),
            text_bytes(users.telemetry_id) == client_id_bytes(app, "tlm", mac@),
            text_bytes(users.prefix) == device_prefix_bytes(app, mac@),
            users.telemetry.topic() == device_prefix_bytes(app, mac@) + "/telemetry".spec_bytes(),
            !users.processor.reset_pending(),
            users.phase == TickPhase::Idle,
    {
        proof {
            lemma_literal_lengths();
            reveal_strlit("settings");
            reveal_strlit("tlm");
            is_ascii_spec_bytes("settings");
            is_ascii_spec_bytes("tlm");
        }
        let processor = NetworkProcessor::new();
        let prefix = get_device_prefix(app, mac);
        let settings_id = get_client_id(app, "settings", mac);
        let telemetry_id = get_client_id(app, "tlm", mac);
        let telemetry = TelemetryClient::new(text_str(&prefix));
        NetworkUsers { settings_id, telemetry_id, prefix, processor, telemetry, phase: TickPhase::Idle }
    }

    /// Takes one report and answers with the next thing to do. A tick runs
    /// from `Start` through the telemetry session, the stack and the
    /// configuration session to `Done`.
    pub fn update(&mut self, event: TickEvent) -> (step: TickStep)
        ensures
            final(self).phase == next_phase(old(self).phase, event),
            step == next_step(old(self).phase, event),
            final(self).processor.reset_pending() == old(self).processor.reset_pending(),
            final(self).telemetry.topic() == old(self).telemetry.topic(),
            final(self).settings_id == old(self).settings_id,
            final(self).telemetry_id == old(self).telemetry_id,
            final(self).prefix == old(self).prefix,
    {
        match (self.phase, event) {
            (_, TickEvent::Start) => {
                self.phase = TickPhase::Telemetry;
                TickStep { action: TickAction::PollTelemetry, report: None }
            },
            (TickPhase::Telemetry, TickEvent::TelemetryPolled(polled)) => {
                let report = match self.telemetry.update(polled) {
                    Some(error) => Some(Fault::Telemetry(error)),
                    None => None,
                };
                self.phase = TickPhase::Stack;
                TickStep { action: TickAction::PollStack, report }
            },
            (TickPhase::Stack, TickEvent::StackPolled(polled)) => {
                let report = match polled {
                    Err(error) => Some(Fault::Stack(error)),
                    Ok(_) => None,
                };
                self.phase = TickPhase::Settings(self.processor.update(polled));
                TickStep { action: TickAction::PollSettings, report }
            },
            (TickPhase::Settings(processor), TickEvent::SettingsPolled(polled)) => {
                let poll_result = match processor {
                    UpdateState::NoChange => NetworkState::NoChange,
                    UpdateState::Updated => NetworkState::Updated,
                };
                let outcome = match polled {
                    Ok(true) => NetworkState::SettingsChanged,
                    _ => poll_result,
                };
                let report = match polled {
                    Ok(_) => None,
                    Err(SessionError::Network(crate::net::telemetry::NetworkError::NoIpAddress)) => None,
                    Err(error) => Some(Fault::Settings(error)),
                };
                self.phase = TickPhase::Idle;
                TickStep { action: TickAction::Done(outcome), report }
            },
            (TickPhase::Idle, _) => TickStep {
                action: TickAction::Done(NetworkState::NoChange),
                report: None,
            },
            (TickPhase::Telemetry, _) => TickStep { action: TickAction::PollTelemetry, report: None },
            (TickPhase::Stack, _) => TickStep { action: TickAction::PollStack, report: None },
            (TickPhase::Settings(_), _) => TickStep { action: TickAction::PollSettings, report: None },
        }
    }
}

/// The outcome of a whole tick, whatever phase it starts from: the outcome
/// that the stack poll and the configuration session give together.
pub open spec fn tick_result(
    phase: TickPhase,
    telemetry: Result<(), SessionError>,
    stack: Result<bool, PollError>,
    settings: Result<bool, SessionError>,
) -> TickAction {
    let telemetry_phase = next_phase(phase, TickEvent::Start);
    let stack_phase = next_phase(telemetry_phase, TickEvent::TelemetryPolled(telemetry));
    let settings_phase = next_phase(stack_phase, TickEvent::StackPolled(stack));
    next_step(settings_phase, TickEvent::SettingsPolled(settings)).action
}

/// A tick asks for telemetry, the stack and the configuration session in
/// that order, and ends idle with the outcome that `tick_outcome` gives.
pub proof fn lemma_tick_runs_in_order(
    phase: TickPhase,
    telemetry: Result<(), SessionError>,
    stack: Result<bool, PollError>,
    settings: Result<bool, SessionError>,
)
    ensures
        next_step(phase, TickEvent::Start).action == TickAction::PollTelemetry,
        next_step(TickPhase::Telemetry, TickEvent::TelemetryPolled(telemetry)).action
            == TickAction::PollStack,
        next_step(TickPhase::Stack, TickEvent::StackPolled(stack)).action
            == TickAction::PollSettings,
        tick_result(phase, telemetry, stack, settings) == TickAction::Done(
            tick_outcome(poll_outcome(stack), settings),
        ),
        next_phase(
            TickPhase::Settings(poll_outcome(stack)),
            TickEvent::SettingsPolled(settings),
        ) == TickPhase::Idle,
{
}

/// When the configuration session reports new settings, the tick ends with
/// `SettingsChanged`, whatever the telemetry session and the stack reported
/// in that tick.
pub proof fn lemma_settings_change_dominates(
    phase: TickPhase,
    telemetry: Result<(), SessionError>,
    stack: Result<bool, PollError>,
)
    ensures
        tick_result(phase, telemetry, stack, Ok(true)) == TickAction::Done(
            NetworkState::SettingsChanged,
        ),
{
}

/// Without new settings the tick ends with the outcome of the stack poll:
/// no change when the poll succeeded and found nothing, progress otherwise,
/// a failed poll included.
pub proof fn lemma_fallback_is_stack_outcome(
    phase: TickPhase,
    telemetry: Result<(), SessionError>,
    stack: Result<bool, PollError>,
    settings: Result<bool, SessionError>,
)
    requires
        settings != Ok::<bool, SessionError>(true),
    ensures
        tick_result(phase, telemetry, stack, settings) == TickAction::Done(
            if stack == Ok::<bool, PollError>(false) {
                NetworkState::NoChange
            } else {
                NetworkState::Updated
            },
        ),
{
}

} // verus!
