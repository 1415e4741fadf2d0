//! The choke point between the node and its network stack: link edges and
//! poll results are judged here.
use vstd::prelude::*;
use crate::net::UpdateState;

verus! {

/// How the link moved between two observations.
#[derive(Copy, Clone, Debug, PartialEq, Eq, Structural)]
pub enum LinkEdge {
    /// The link is where it was.
    Steady,
    /// The link went down: the stack is to be reset, once.
    Lost,
    /// The link came back.
    Restored,
}

/// What one link observation amounted to.
#[derive(Copy, Clone, Debug, PartialEq, Eq, Structural)]
pub struct LinkReport {
    /// The link state as observed, for the link indicator.
    pub link_up: bool,
    /// The edge that this observation completed.
    pub edge: LinkEdge,
}

/// The edge that an observation completes, given whether a reset is already
/// pending from an earlier loss.
pub open spec fn edge_of(reset_pending: bool, link_up: bool) -> LinkEdge {
    if link_up && reset_pending {
        LinkEdge::Restored
    } else if !link_up && !reset_pending {
        LinkEdge::Lost
    } else {
        LinkEdge::Steady
    }
}

/// The edges that a series of observations completes, one per observation,
/// starting from a latch whose pending flag is `reset_pending`.
pub open spec fn edges_of(reset_pending: bool, observations: Seq<bool>) -> Seq<LinkEdge>
    decreases observations.len(),
{
    if observations.len() == 0 {
        Seq::empty()
    } else {
        seq![edge_of(reset_pending, observations[0])] + edges_of(
            !observations[0],
            observations.drop_first(),
        )
    }
}

/// Whether observation `at` opens a run of "down" observations: it is down,
/// and what came before it was up. Before the first observation stands the
/// latch itself, which counts as up unless a reset is pending.
pub open spec fn opens_down_run(reset_pending: bool, observations: Seq<bool>, at: int) -> bool {
    &&& !observations[at]
    &&& if at == 0 {
        !reset_pending
    } else {
        observations[at - 1]
    }
}

/// Judges what the stack and the link report.
#[derive(Copy, Clone, Debug)]
pub struct NetworkProcessor {
    network_was_reset: bool,
}

impl NetworkProcessor {
    /// Whether the stack was reset for a loss of link that has not ended yet.
    pub closed spec fn reset_pending(&self) -> bool {
        self.network_was_reset
    }

    /// A processor that has seen no loss of link.
    pub fn new() -> (processor: NetworkProcessor)
        ensures
            !processor.reset_pending(),
    {
        NetworkProcessor { network_was_reset: false }
    }

    /// Takes one observation of the link. The report says `Lost` when the
    /// link went down and no reset is pending, and only then is the stack to
    /// be reset; afterwards a reset is pending until the link is seen up.
    pub fn handle_link(&mut self, link_up: bool) -> (report: LinkReport)
        ensures
            report.link_up == link_up,
            report.edge == edge_of(old(self).reset_pending(), link_up),
            final(self).reset_pending() == !link_up,
    {
        let edge = match (link_up, self.network_was_reset) {
            (true, true) => {
                self.network_was_reset = false;
                LinkEdge::Restored
            },
            (false, false) => {
                self.network_was_reset = true;
                LinkEdge::Lost
            },
            _ => LinkEdge::Steady,
        };
        LinkReport { link_up, edge }
    }

    /// Judges one poll of the stack. A poll that failed counts as progress,
    /// so that whoever depends on the stack looks at it again.
    pub fn update<E>(&mut self, polled: Result<bool, E>) -> (state: UpdateState)
        ensures
            state == poll_outcome(polled),
            final(self).reset_pending() == old(self).reset_pending(),
    {
        match polled {
            Ok(true) => UpdateState::Updated,
            Ok(false) => UpdateState::NoChange,
            Err(_) => UpdateState::Updated,
        }
    }
}

/// What a poll result amounts to: no change only when the poll succeeded and
/// found nothing to do.
pub open spec fn poll_outcome<E>(polled: Result<bool, E>) -> UpdateState {
    match polled {
        Ok(false) => UpdateState::NoChange,
        _ => UpdateState::Updated,
    }
}

/// A reset is asked for at an observation exactly when that observation
/// opens a run of "down" observations.
pub proof fn lemma_reset_at_run_start(reset_pending: bool, observations: Seq<bool>, at: int)
    requires
        0 <= at < observations.len(),
    ensures
        edges_of(reset_pending, observations).len() == observations.len(),
        edges_of(reset_pending, observations)[at] == LinkEdge::Lost <==> opens_down_run(
            reset_pending,
            observations,
            at,
        ),
    decreases observations.len(),
{
    let rest = observations.drop_first();
    lemma_edges_len(!observations[0], rest);
    if at > 0 {
        lemma_reset_at_run_start(!observations[0], rest, at - 1);
    }
}

/// Each observation completes one edge.
pub proof fn lemma_edges_len(reset_pending: bool, observations: Seq<bool>)
    ensures
        edges_of(reset_pending, observations).len() == observations.len(),
    decreases observations.len(),
{
    if observations.len() > 0 {
        lemma_edges_len(!observations[0], observations.drop_first());
    }
}

/// Over a maximal run of "down" observations, from `start` up to `end`, the
/// reset is asked for exactly once: at the first observation of the run, and
/// at no later one. A run that begins the series counts only if no reset was
/// pending when the series began.
pub proof fn lemma_one_reset_per_down_run(
    reset_pending: bool,
    observations: Seq<bool>,
    start: int,
    end: int,
)
    requires
        0 <= start < end <= observations.len(),
        forall|i: int| start <= i < end ==> !observations[i],
        start == 0 ==> !reset_pending,
        start > 0 ==> observations[start - 1],
    ensures
        edges_of(reset_pending, observations)[start] == LinkEdge::Lost,
        forall|i: int|
            start < i < end ==> edges_of(reset_pending, observations)[i] != LinkEdge::Lost,
{
    lemma_reset_at_run_start(reset_pending, observations, start);
    assert forall|i: int| start < i < end implies edges_of(reset_pending, observations)[i]
        != LinkEdge::Lost by {
        lemma_reset_at_run_start(reset_pending, observations, i);
    }
}

} // verus!
