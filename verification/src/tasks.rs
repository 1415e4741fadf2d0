//! What each task of the node decides when it runs.
//!
//! A task of the node is a short piece of work that the scheduler starts: it
//! looks at one result and decides what follows from it. The work on the
//! hardware and the network around each decision is the caller's.
use vstd::prelude::*;
use crate::net::network_processor::{edge_of, LinkEdge, NetworkProcessor};
use crate::net::NetworkState;
use crate::settings::Settings;
use crate::telemetry::Telemetry;

verus! {

/// What follows from one tick of the network users.
#[derive(Copy, Clone, Debug, PartialEq, Eq, Structural)]
pub struct PollReaction {
    /// The settings task is to be started.
    pub apply_settings: bool,
    /// The activity indicator is to be toggled.
    pub toggle_activity: bool,
}

/// What follows from one observation of the link.
#[derive(Copy, Clone, Debug, PartialEq, Eq, Structural)]
pub struct LinkReaction {
    /// The level to drive the link indicator to: high while the link is up.
    pub link_led: bool,
    /// The stack is to be reset, because the link was just lost.
    pub reset_stack: bool,
    /// The edge that the observation completed, for the log.
    pub edge: LinkEdge,
}

/// The sample count after `count`: one more, or zero once the numbers have
/// run out.
pub open spec fn sample_count_after(count: u32) -> u32 {
    if count == u32::MAX {
        0
    } else {
        (count + 1) as u32
    }
}

/// The poll task: new settings start the settings task, progress of the
/// stack toggles the activity indicator, and no change does nothing.
pub fn poll_ip_stack(outcome: NetworkState) -> (reaction: PollReaction)
    ensures
        reaction.apply_settings == (outcome == NetworkState::SettingsChanged),
        reaction.toggle_activity == (outcome == NetworkState::Updated),
{
    match outcome {
        NetworkState::SettingsChanged => PollReaction {
            apply_settings: true,
            toggle_activity: false,
        },
        NetworkState::Updated => PollReaction { apply_settings: false, toggle_activity: true },
        NetworkState::NoChange => PollReaction { apply_settings: false, toggle_activity: false },
    }
}

/// The link task: hands the observation to the processor, shows the link
/// state on the indicator and asks for a stack reset when the link was just
/// lost.
pub fn link_status(processor: &mut NetworkProcessor, link_up: bool) -> (reaction: LinkReaction)
    ensures
        reaction.link_led == link_up,
        reaction.edge == edge_of(old(processor).reset_pending(), link_up),
        reaction.reset_stack == (reaction.edge == LinkEdge::Lost),
        final(processor).reset_pending() == !link_up,
{
    let report = processor.handle_link(link_up);
    LinkReaction {
        link_led: report.link_up,
        reset_stack: report.edge == LinkEdge::Lost,
        edge: report.edge,
    }
}

/// The settings task: takes over the settings that the configuration session
/// holds, and returns the level to drive the user indicator to.
pub fn settings_update(current: &mut Settings, received: Settings) -> (led: bool)
    ensures
        *final(current) == received,
        led == received.led,
{
    *current = received;
    received.led
}

/// The telemetry task: makes the next sample, which is then to be published.
pub fn telemetry_task(telemetry: &mut Telemetry) -> (sample: Telemetry)
    ensures
        final(telemetry).dummy == sample_count_after(old(telemetry).dummy),
        sample == *final(telemetry),
{
    telemetry.dummy = telemetry.dummy.wrapping_add(1);
    *telemetry
}

} // verus!
