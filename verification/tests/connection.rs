use bi_chat::connection::{step, ConnAction, ConnEvent, ConnState};

const STATES: [ConnState; 4] = [
    ConnState::Connecting,
    ConnState::Joined,
    ConnState::Draining,
    ConnState::Closed,
];

const EVENTS: [ConnEvent; 7] = [
    ConnEvent::Upgraded,
    ConnEvent::FrameReceived,
    ConnEvent::ReceiveFailed,
    ConnEvent::TransportClosed,
    ConnEvent::ShutdownObserved,
    ConnEvent::OutboundFailed,
    ConnEvent::Deregistered,
];

fn rank(state: ConnState) -> u8 {
    match state {
        ConnState::Connecting => 0,
        ConnState::Joined => 1,
        ConnState::Draining => 2,
        ConnState::Closed => 3,
    }
}

#[test]
fn an_upgrade_joins() {
    assert_eq!(
        step(ConnState::Connecting, ConnEvent::Upgraded),
        (ConnState::Joined, ConnAction::Register)
    );
}

#[test]
fn a_frame_is_relayed_while_joined() {
    assert_eq!(
        step(ConnState::Joined, ConnEvent::FrameReceived),
        (ConnState::Joined, ConnAction::Relay)
    );
}

#[test]
fn the_end_of_the_inbound_side_drains() {
    for event in [
        ConnEvent::ReceiveFailed,
        ConnEvent::TransportClosed,
        ConnEvent::ShutdownObserved,
    ] {
        assert_eq!(
            step(ConnState::Joined, event),
            (ConnState::Draining, ConnAction::Deregister)
        );
    }
}

#[test]
fn deregistering_closes() {
    assert_eq!(
        step(ConnState::Draining, ConnEvent::Deregistered),
        (ConnState::Closed, ConnAction::Nothing)
    );
}

#[test]
fn an_outbound_failure_stops_the_pump_and_nothing_else() {
    assert_eq!(
        step(ConnState::Joined, ConnEvent::OutboundFailed),
        (ConnState::Joined, ConnAction::StopOutbound)
    );
    assert_eq!(
        step(ConnState::Draining, ConnEvent::OutboundFailed),
        (ConnState::Draining, ConnAction::StopOutbound)
    );
    assert_eq!(
        step(ConnState::Connecting, ConnEvent::OutboundFailed),
        (ConnState::Connecting, ConnAction::Nothing)
    );
    assert_eq!(
        step(ConnState::Closed, ConnEvent::OutboundFailed),
        (ConnState::Closed, ConnAction::Nothing)
    );
}

#[test]
fn frames_are_passed_over_outside_joined() {
    for state in [ConnState::Connecting, ConnState::Draining, ConnState::Closed] {
        assert_eq!(step(state, ConnEvent::FrameReceived), (state, ConnAction::Nothing));
    }
}

#[test]
fn a_closed_connection_stays_closed() {
    for event in EVENTS {
        assert_eq!(step(ConnState::Closed, event), (ConnState::Closed, ConnAction::Nothing));
    }
}

#[test]
fn no_step_goes_back() {
    for state in STATES {
        for event in EVENTS {
            let (then, _) = step(state, event);
            assert!(rank(state) <= rank(then) && rank(then) <= rank(state) + 1);
        }
    }
}

#[test]
fn a_whole_life() {
    let events = [
        ConnEvent::Upgraded,
        ConnEvent::FrameReceived,
        ConnEvent::FrameReceived,
        ConnEvent::OutboundFailed,
        ConnEvent::FrameReceived,
        ConnEvent::ShutdownObserved,
        ConnEvent::FrameReceived,
        ConnEvent::Deregistered,
        ConnEvent::TransportClosed,
    ];
    let mut state = ConnState::Connecting;
    let mut actions = Vec::new();
    for event in events {
        let (then, action) = step(state, event);
        state = then;
        actions.push(action);
    }
    assert_eq!(state, ConnState::Closed);
    assert_eq!(
        actions,
        vec![
            ConnAction::Register,
            ConnAction::Relay,
            ConnAction::Relay,
            ConnAction::StopOutbound,
            ConnAction::Relay,
            ConnAction::Deregister,
            ConnAction::Nothing,
            ConnAction::Nothing,
            ConnAction::Nothing,
        ]
    );
    assert_eq!(actions.iter().filter(|a| **a == ConnAction::Register).count(), 1);
    assert_eq!(actions.iter().filter(|a| **a == ConnAction::Deregister).count(), 1);
}
