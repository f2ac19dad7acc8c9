use vstd::prelude::*;

verus! {

// One gossip session walks a fixed ladder of stages; the network work
// between stages happens outside, and hands its outcome back as an event.
// The decision of what a session does next is the logic verified here.

/// Where one gossip session stands.
#[derive(Clone, Copy, Debug, PartialEq, Eq, Structural)]
pub enum RoundState {
    /// No session yet.
    Idle,
    /// The initiate message is out.
    Initiated,
    /// Agent infos have been diffed and exchanged.
    AgentsExchanged,
    /// Region fingerprints have been compared.
    RegionsExchanged,
    /// Missing ops are streaming.
    OpsStreaming,
    /// The session finished cleanly.
    Done,
    /// The session failed or timed out.
    Errored,
}

/// What the outside work reports back to a session.
#[derive(Clone, Copy, Debug, PartialEq, Eq, Structural)]
pub enum RoundEvent {
    /// A peer was picked and the initiate message was sent.
    Initiate,
    /// The peer accepted and agent infos were exchanged.
    AgentsDiffed,
    /// Region fingerprints were exchanged and compared.
    RegionsCompared,
    /// The ops missing from the differing regions were requested.
    OpsRequested,
    /// All missing ops arrived.
    OpsDone,
    /// The peer sent an error, or had no agents.
    PeerError,
    /// A stage outlived its deadline.
    Timeout,
}

/// How far along the ladder a state stands.
pub open spec fn stage_index(s: RoundState) -> int {
    match s {
        RoundState::Idle => 0,
        RoundState::Initiated => 1,
        RoundState::AgentsExchanged => 2,
        RoundState::RegionsExchanged => 3,
        RoundState::OpsStreaming => 4,
        RoundState::Done => 5,
        RoundState::Errored => 5,
    }
}

/// A state no event can leave.
pub open spec fn is_terminal(s: RoundState) -> bool {
    s == RoundState::Done || s == RoundState::Errored
}

/// What one event does to a session: each stage accepts exactly the event
/// of the work it is waiting for and climbs one rung; an error or a timeout
/// in any live stage ends the session as errored; an event a stage is not
/// waiting for is a protocol breach and also ends it as errored; terminal
/// states absorb everything.
pub open spec fn spec_round_step(s: RoundState, ev: RoundEvent) -> RoundState {
    if is_terminal(s) {
        s
    } else if ev == RoundEvent::PeerError || ev == RoundEvent::Timeout {
        RoundState::Errored
    } else {
        match (s, ev) {
            (RoundState::Idle, RoundEvent::Initiate) => RoundState::Initiated,
            (RoundState::Initiated, RoundEvent::AgentsDiffed) => RoundState::AgentsExchanged,
            (RoundState::AgentsExchanged, RoundEvent::RegionsCompared) => RoundState::RegionsExchanged,
            (RoundState::RegionsExchanged, RoundEvent::OpsRequested) => RoundState::OpsStreaming,
            (RoundState::OpsStreaming, RoundEvent::OpsDone) => RoundState::Done,
            _ => RoundState::Errored,
        }
    }
}

/// Drive one session one event forward.
pub fn round_step(s: RoundState, ev: RoundEvent) -> (r: RoundState)
    ensures
        r == spec_round_step(s, ev),
{
    if matches!(s, RoundState::Done | RoundState::Errored) {
        s
    } else if matches!(ev, RoundEvent::PeerError | RoundEvent::Timeout) {
        RoundState::Errored
    } else {
        match (s, ev) {
            (RoundState::Idle, RoundEvent::Initiate) => RoundState::Initiated,
            (RoundState::Initiated, RoundEvent::AgentsDiffed) => RoundState::AgentsExchanged,
            (RoundState::AgentsExchanged, RoundEvent::RegionsCompared) => RoundState::RegionsExchanged,
            (RoundState::RegionsExchanged, RoundEvent::OpsRequested) => RoundState::OpsStreaming,
            (RoundState::OpsStreaming, RoundEvent::OpsDone) => RoundState::Done,
            _ => RoundState::Errored,
        }
    }
}

/// A session only moves forward: no event lowers it on the ladder, and a
/// finished or failed session stays where it ended.
pub proof fn lemma_round_forward_only(s: RoundState, ev: RoundEvent)
    ensures
        stage_index(spec_round_step(s, ev)) >= stage_index(s),
        is_terminal(s) ==> spec_round_step(s, ev) == s,
{
}

/// A timeout ends any live session as errored, releasing its peer slot.
pub proof fn lemma_timeout_errors_live_sessions(s: RoundState)
    ensures
        !is_terminal(s) ==> spec_round_step(s, RoundEvent::Timeout) == RoundState::Errored,
{
}

} // verus!
