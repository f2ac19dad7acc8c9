use cell_core::gossip::round_step;
use cell_core::gossip::RoundEvent;
use cell_core::gossip::RoundState;

#[test]
fn a_clean_session_climbs_the_ladder() {
    let mut s = RoundState::Idle;
    s = round_step(s, RoundEvent::Initiate);
    assert_eq!(s, RoundState::Initiated);
    s = round_step(s, RoundEvent::AgentsDiffed);
    assert_eq!(s, RoundState::AgentsExchanged);
    s = round_step(s, RoundEvent::RegionsCompared);
    assert_eq!(s, RoundState::RegionsExchanged);
    s = round_step(s, RoundEvent::OpsRequested);
    assert_eq!(s, RoundState::OpsStreaming);
    s = round_step(s, RoundEvent::OpsDone);
    assert_eq!(s, RoundState::Done);
    // terminal states absorb every further event
    assert_eq!(round_step(s, RoundEvent::Timeout), RoundState::Done);
}

#[test]
fn a_timeout_errors_any_live_stage() {
    for s in [
        RoundState::Idle,
        RoundState::Initiated,
        RoundState::AgentsExchanged,
        RoundState::RegionsExchanged,
        RoundState::OpsStreaming,
    ] {
        assert_eq!(round_step(s, RoundEvent::Timeout), RoundState::Errored);
        assert_eq!(round_step(s, RoundEvent::PeerError), RoundState::Errored);
    }
    assert_eq!(
        round_step(RoundState::Errored, RoundEvent::Initiate),
        RoundState::Errored
    );
}

#[test]
fn an_event_out_of_order_is_a_breach() {
    assert_eq!(
        round_step(RoundState::Idle, RoundEvent::OpsDone),
        RoundState::Errored
    );
    assert_eq!(
        round_step(RoundState::Initiated, RoundEvent::RegionsCompared),
        RoundState::Errored
    );
}
