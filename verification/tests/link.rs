use mqtt_node::net::network_processor::{LinkEdge, LinkReport, NetworkProcessor};
use mqtt_node::net::UpdateState;

fn edges(processor: &mut NetworkProcessor, observations: &[bool]) -> Vec<LinkEdge> {
    observations.iter().map(|up| processor.handle_link(*up).edge).collect()
}

#[test]
fn link_down_for_five_polls_resets_once() {
    let mut processor = NetworkProcessor::new();
    assert_eq!(
        processor.handle_link(true),
        LinkReport { link_up: true, edge: LinkEdge::Steady }
    );
    let seen = edges(&mut processor, &[false, false, false, false, false]);
    assert_eq!(
        seen,
        vec![
            LinkEdge::Lost,
            LinkEdge::Steady,
            LinkEdge::Steady,
            LinkEdge::Steady,
            LinkEdge::Steady
        ]
    );
}

#[test]
fn each_run_of_down_observations_resets_once() {
    let mut processor = NetworkProcessor::new();
    let observations = [false, false, true, false, true, true, false, false];
    let seen = edges(&mut processor, &observations);
    let resets: Vec<usize> =
        (0..seen.len()).filter(|at| seen[*at] == LinkEdge::Lost).collect();
    assert_eq!(resets, vec![0, 3, 6]);
    let restored: Vec<usize> =
        (0..seen.len()).filter(|at| seen[*at] == LinkEdge::Restored).collect();
    assert_eq!(restored, vec![2, 4]);
}

#[test]
fn a_fresh_processor_counts_the_link_as_up() {
    let mut processor = NetworkProcessor::new();
    assert_eq!(processor.handle_link(false).edge, LinkEdge::Lost);
    let mut processor = NetworkProcessor::new();
    assert_eq!(processor.handle_link(true).edge, LinkEdge::Steady);
}

#[test]
fn the_report_carries_the_observation() {
    let mut processor = NetworkProcessor::new();
    assert!(processor.handle_link(true).link_up);
    assert!(!processor.handle_link(false).link_up);
    assert!(!processor.handle_link(false).link_up);
    assert!(processor.handle_link(true).link_up);
}

#[test]
fn no_second_reset_without_an_up_observation() {
    let mut processor = NetworkProcessor::new();
    assert_eq!(processor.handle_link(false).edge, LinkEdge::Lost);
    for _ in 0..100 {
        assert_eq!(processor.handle_link(false).edge, LinkEdge::Steady);
    }
    assert_eq!(processor.handle_link(true).edge, LinkEdge::Restored);
    assert_eq!(processor.handle_link(true).edge, LinkEdge::Steady);
    assert_eq!(processor.handle_link(false).edge, LinkEdge::Lost);
}

#[test]
fn a_poll_counts_as_progress_unless_it_found_nothing() {
    let mut processor = NetworkProcessor::new();
    assert_eq!(processor.update::<()>(Ok(true)), UpdateState::Updated);
    assert_eq!(processor.update::<()>(Ok(false)), UpdateState::NoChange);
    assert_eq!(processor.update(Err("exhausted")), UpdateState::Updated);
}

#[test]
fn polling_leaves_the_link_latch_alone() {
    let mut processor = NetworkProcessor::new();
    processor.handle_link(false);
    processor.update::<()>(Ok(true));
    processor.update(Err(()));
    assert_eq!(processor.handle_link(false).edge, LinkEdge::Steady);
}
