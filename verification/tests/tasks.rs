use mqtt_node::net::network_processor::{LinkEdge, NetworkProcessor};
use mqtt_node::net::NetworkState;
use mqtt_node::settings::Settings;
use mqtt_node::tasks::{link_status, poll_ip_stack, settings_update, LinkReaction, PollReaction};

#[test]
fn settings_default_to_the_indicator_off() {
    assert_eq!(Settings::default(), Settings { led: false });
}

#[test]
fn the_poll_task_reacts_to_each_outcome() {
    assert_eq!(
        poll_ip_stack(NetworkState::SettingsChanged),
        PollReaction { apply_settings: true, toggle_activity: false }
    );
    assert_eq!(
        poll_ip_stack(NetworkState::Updated),
        PollReaction { apply_settings: false, toggle_activity: true }
    );
    assert_eq!(
        poll_ip_stack(NetworkState::NoChange),
        PollReaction { apply_settings: false, toggle_activity: false }
    );
}

#[test]
fn the_link_task_shows_the_link_and_resets_on_loss() {
    let mut processor = NetworkProcessor::new();
    assert_eq!(
        link_status(&mut processor, true),
        LinkReaction { link_led: true, reset_stack: false, edge: LinkEdge::Steady }
    );
    assert_eq!(
        link_status(&mut processor, false),
        LinkReaction { link_led: false, reset_stack: true, edge: LinkEdge::Lost }
    );
    assert_eq!(
        link_status(&mut processor, false),
        LinkReaction { link_led: false, reset_stack: false, edge: LinkEdge::Steady }
    );
    assert_eq!(
        link_status(&mut processor, true),
        LinkReaction { link_led: true, reset_stack: false, edge: LinkEdge::Restored }
    );
    assert_eq!(
        link_status(&mut processor, false),
        LinkReaction { link_led: false, reset_stack: true, edge: LinkEdge::Lost }
    );
}

#[test]
fn the_settings_task_takes_over_what_was_received() {
    let mut current = Settings::default();
    assert!(settings_update(&mut current, Settings { led: true }));
    assert_eq!(current, Settings { led: true });
    assert!(!settings_update(&mut current, Settings { led: false }));
    assert_eq!(current, Settings { led: false });
}
