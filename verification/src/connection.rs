//! The life of one connection, as a state machine.
//!
//! A connection is registered in its room exactly while it is `Joined`. The
//! caller runs the two pumps and the transport; after each thing that happens
//! it asks [`step`] where the connection stands now and what it has to do.

use vstd::prelude::*;

verus! {

/// Where a connection stands.
#[derive(Clone, Copy, Debug, PartialEq, Eq, Structural)]
pub enum ConnState {
    /// The transport upgrade has not completed.
    Connecting,
    /// Registered in the room; both pumps run.
    Joined,
    /// The inbound side has ended; the connection is being deregistered.
    Draining,
    /// Deregistered, and the outbound pump has been asked to stop.
    Closed,
}

/// What can happen to a connection.
#[derive(Clone, Copy, Debug, PartialEq, Eq, Structural)]
pub enum ConnEvent {
    /// The transport upgrade succeeded.
    Upgraded,
    /// The inbound pump received a frame.
    FrameReceived,
    /// The inbound pump got a transport error.
    ReceiveFailed,
    /// The peer closed the transport.
    TransportClosed,
    /// The shutdown announcement was seen.
    ShutdownObserved,
    /// The outbound pump could not send on the transport.
    OutboundFailed,
    /// The connection has left its room and its outbound pump has been asked
    /// to stop.
    Deregistered,
}

/// What the caller has to do after an event.
#[derive(Clone, Copy, Debug, PartialEq, Eq, Structural)]
pub enum ConnAction {
    /// Join the room and start the outbound pump.
    Register,
    /// Hand the frame on: persist it and fan it out.
    Relay,
    /// Leave the room and ask the outbound pump to stop.
    Deregister,
    /// Stop the outbound pump; the inbound pump goes on.
    StopOutbound,
    /// Nothing.
    Nothing,
}

/// The transition table. An event that has no meaning in a state changes
/// nothing and asks for nothing.
pub open spec fn next(state: ConnState, event: ConnEvent) -> (ConnState, ConnAction) {
    match (state, event) {
        (ConnState::Connecting, ConnEvent::Upgraded) => (ConnState::Joined, ConnAction::Register),
        (ConnState::Joined, ConnEvent::FrameReceived) => (ConnState::Joined, ConnAction::Relay),
        (ConnState::Joined, ConnEvent::ReceiveFailed) => (ConnState::Draining, ConnAction::Deregister),
        (ConnState::Joined, ConnEvent::TransportClosed) => (
            ConnState::Draining,
            ConnAction::Deregister,
        ),
        (ConnState::Joined, ConnEvent::ShutdownObserved) => (
            ConnState::Draining,
            ConnAction::Deregister,
        ),
        (ConnState::Joined, ConnEvent::OutboundFailed) => (ConnState::Joined, ConnAction::StopOutbound),
        (ConnState::Draining, ConnEvent::OutboundFailed) => (
            ConnState::Draining,
            ConnAction::StopOutbound,
        ),
        (ConnState::Draining, ConnEvent::Deregistered) => (ConnState::Closed, ConnAction::Nothing),
        _ => (state, ConnAction::Nothing),
    }
}

/// How far a connection has come.
pub open spec fn rank(state: ConnState) -> nat {
    match state {
        ConnState::Connecting => 0,
        ConnState::Joined => 1,
        ConnState::Draining => 2,
        ConnState::Closed => 3,
    }
}

/// Whether a connection in this state is a member of its room.
pub open spec fn registered(state: ConnState) -> bool {
    state == ConnState::Joined
}

/// The state after a run of events.
pub open spec fn state_after(state: ConnState, events: Seq<ConnEvent>) -> ConnState
    decreases events.len(),
{
    if events.len() == 0 {
        state
    } else {
        state_after(next(state, events[0]).0, events.drop_first())
    }
}

/// How often a run of events asks for `action`.
pub open spec fn times_asked(state: ConnState, events: Seq<ConnEvent>, action: ConnAction) -> nat
    decreases events.len(),
{
    if events.len() == 0 {
        0
    } else {
        let (then, asked) = next(state, events[0]);
        let now: nat = if asked == action {
            1
        } else {
            0
        };
        now + times_asked(then, events.drop_first(), action)
    }
}

/// A connection only moves forward, and by one state at a time.
pub proof fn lemma_moves_forward(state: ConnState, event: ConnEvent)
    ensures
        rank(state) <= rank(next(state, event).0) <= rank(state) + 1,
{
}

/// Frames are relayed only while the connection is joined, and relaying
/// leaves it joined.
pub proof fn lemma_relay_only_while_joined(state: ConnState, event: ConnEvent)
    ensures
        next(state, event).1 == ConnAction::Relay <==> (state == ConnState::Joined && event
            == ConnEvent::FrameReceived),
        next(state, event).1 == ConnAction::Relay ==> next(state, event).0 == ConnState::Joined,
{
}

/// The end of the inbound side, by an error, by the peer or by shutdown, is
/// what makes a joined connection leave; nothing else does.
pub proof fn lemma_inbound_end_deregisters(state: ConnState, event: ConnEvent)
    ensures
        next(state, event).1 == ConnAction::Deregister <==> (state == ConnState::Joined && (event
            == ConnEvent::ReceiveFailed || event == ConnEvent::TransportClosed || event
            == ConnEvent::ShutdownObserved)),
{
}

/// A failure of the outbound pump never moves the connection: it does not
/// make it leave.
pub proof fn lemma_outbound_failure_keeps_state(state: ConnState)
    ensures
        next(state, ConnEvent::OutboundFailed).0 == state,
        next(state, ConnEvent::OutboundFailed).1 != ConnAction::Deregister,
{
}

/// Whatever happens, registrations and deregistrations stay in step with the
/// state: over any run of events the connection is asked to register once
/// more than to deregister exactly if the run takes it into `Joined`, once
/// less exactly if it takes it out, and equally often otherwise.
pub proof fn lemma_registration_follows_state(state: ConnState, events: Seq<ConnEvent>)
    ensures
        times_asked(state, events, ConnAction::Register) + (if registered(state) {
            1nat
        } else {
            0nat
        }) == times_asked(state, events, ConnAction::Deregister) + (if registered(
            state_after(state, events),
        ) {
            1nat
        } else {
            0nat
        }),
    decreases events.len(),
{
    if events.len() > 0 {
        lemma_registration_follows_state(next(state, events[0]).0, events.drop_first());
    }
}

/// A connection that starts out and ends closed has registered exactly once
/// and deregistered exactly once.
pub proof fn lemma_closed_connection_has_left(events: Seq<ConnEvent>)
    requires
        state_after(ConnState::Connecting, events) == ConnState::Closed,
    ensures
        times_asked(ConnState::Connecting, events, ConnAction::Register) == 1,
        times_asked(ConnState::Connecting, events, ConnAction::Deregister) == 1,
{
    lemma_registration_follows_state(ConnState::Connecting, events);
    lemma_registers_at_most_once(ConnState::Connecting, events);
    lemma_close_takes_a_deregistration(ConnState::Connecting, events);
}

/// A connection is asked to register only on its way out of `Connecting`, so
/// at most once.
pub proof fn lemma_registers_at_most_once(state: ConnState, events: Seq<ConnEvent>)
    ensures
        times_asked(state, events, ConnAction::Register) <= 1,
        state != ConnState::Connecting ==> times_asked(state, events, ConnAction::Register) == 0,
    decreases events.len(),
{
    if events.len() > 0 {
        lemma_registers_at_most_once(next(state, events[0]).0, events.drop_first());
    }
}

/// A connection that is not yet draining cannot end closed without having
/// been asked to deregister.
pub proof fn lemma_close_takes_a_deregistration(state: ConnState, events: Seq<ConnEvent>)
    requires
        rank(state) <= 1,
        state_after(state, events) == ConnState::Closed,
    ensures
        times_asked(state, events, ConnAction::Deregister) >= 1,
    decreases events.len(),
{
    if events.len() > 0 {
        let then = next(state, events[0]).0;
        if rank(then) <= 1 {
            lemma_close_takes_a_deregistration(then, events.drop_first());
        }
    }
}

/// Takes one event, as the transition table says.
pub fn step(state: ConnState, event: ConnEvent) -> (then: (ConnState, ConnAction))
    ensures
        then == next(state, event),
{
    match state {
        ConnState::Connecting => match event {
            ConnEvent::Upgraded => (ConnState::Joined, ConnAction::Register),
            _ => (state, ConnAction::Nothing),
        },
        ConnState::Joined => match event {
            ConnEvent::FrameReceived => (ConnState::Joined, ConnAction::Relay),
            ConnEvent::ReceiveFailed | ConnEvent::TransportClosed | ConnEvent::ShutdownObserved => (
                ConnState::Draining,
                ConnAction::Deregister,
            ),
            ConnEvent::OutboundFailed => (ConnState::Joined, ConnAction::StopOutbound),
            _ => (state, ConnAction::Nothing),
        },
        ConnState::Draining => match event {
            ConnEvent::OutboundFailed => (ConnState::Draining, ConnAction::StopOutbound),
            ConnEvent::Deregistered => (ConnState::Closed, ConnAction::Nothing),
            _ => (state, ConnAction::Nothing),
        },
        ConnState::Closed => (state, ConnAction::Nothing),
    }
}

} // verus!
