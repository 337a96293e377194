//! The server's own decisions: who may still connect and under which id, and
//! when the process may exit.
//!
//! User ids are handed out by one counter that only rises, so that no id is
//! given twice. Once shutdown has been signaled nobody is accepted:
//! connections that are joined drain, and no new one comes in. The process
//! exits only when everyone who holds a completion handle has released it.

use vstd::prelude::*;

verus! {

/// The id that the first accepted connection gets.
pub const FIRST_USER_ID: usize = 1;

/// What the acceptor tells a connection that asks while the next id is
/// `next_id`: the id, if shutdown has not been signaled and an unused id is
/// left.
pub open spec fn accepted_id(next_id: usize, shutdown_signaled: bool) -> Option<usize> {
    if !shutdown_signaled && next_id < usize::MAX {
        Some(next_id)
    } else {
        None
    }
}

/// The next id after a connection has asked. A connection that is not
/// accepted uses up no id.
pub open spec fn id_after(next_id: usize, shutdown_signaled: bool) -> usize {
    if accepted_id(next_id, shutdown_signaled) is Some {
        (next_id + 1) as usize
    } else {
        next_id
    }
}

/// What connections in a row are told, one for each entry of `signaled`,
/// which says whether shutdown had been signaled when that connection asked.
pub open spec fn accept_run(next_id: usize, signaled: Seq<bool>) -> Seq<Option<usize>>
    decreases signaled.len(),
{
    if signaled.len() == 0 {
        Seq::empty()
    } else {
        seq![accepted_id(next_id, signaled[0])] + accept_run(
            id_after(next_id, signaled[0]),
            signaled.drop_first(),
        )
    }
}

/// Ids only rise: no connection gets an id below the counter, and of any two
/// connections that are accepted, the later one gets the greater id. So no id
/// is given twice. And a connection that asks after shutdown was signaled is
/// not accepted.
pub proof fn lemma_ids_rise(next_id: usize, signaled: Seq<bool>)
    ensures
        accept_run(next_id, signaled).len() == signaled.len(),
        forall|i: int|
            0 <= i < signaled.len() ==> (#[trigger] accept_run(next_id, signaled)[i] matches Some(id)
                ==> id >= next_id && !signaled[i]),
        forall|i: int, j: int|
            0 <= i < j < signaled.len() ==> (#[trigger] accept_run(next_id, signaled)[i] matches Some(
                first,
            ) ==> (#[trigger] accept_run(next_id, signaled)[j] matches Some(second) ==> first
                < second)),
    decreases signaled.len(),
{
    if signaled.len() > 0 {
        let then = id_after(next_id, signaled[0]);
        let rest = accept_run(then, signaled.drop_first());
        lemma_ids_rise(then, signaled.drop_first());
        assert forall|i: int| 0 < i < signaled.len() implies #[trigger] accept_run(
            next_id,
            signaled,
        )[i] == rest[i - 1] && signaled[i] == signaled.drop_first()[i - 1] by {}
    }
}

/// Decides on each new connection.
pub struct Acceptor {
    next_user_id: usize,
}

impl Acceptor {
    /// The id that the next accepted connection gets.
    pub closed spec fn next_id(&self) -> usize {
        self.next_user_id
    }

    /// An acceptor that has accepted nobody yet.
    pub fn new() -> (acceptor: Self)
        ensures
            acceptor.next_id() == FIRST_USER_ID,
    {
        Acceptor { next_user_id: FIRST_USER_ID }
    }

    /// Decides on a connection that asks to be upgraded, given whether
    /// shutdown has been signaled. If the connection is accepted it gets the
    /// next id, and the connections after it get greater ones. If it is not,
    /// nothing changes.
    pub fn accept(&mut self, shutdown_signaled: bool) -> (accepted: Option<usize>)
        ensures
            accepted == accepted_id(old(self).next_id(), shutdown_signaled),
            final(self).next_id() == id_after(old(self).next_id(), shutdown_signaled),
    {
        if shutdown_signaled || self.next_user_id == usize::MAX {
            None
        } else {
            let user_id = self.next_user_id;
            self.next_user_id = user_id + 1;
            Some(user_id)
        }
    }
}

/// Where the server stands on its way out.
#[derive(Clone, Copy, Debug, PartialEq, Eq, Structural)]
pub enum ServerPhase {
    /// Shutdown has not been signaled.
    Serving,
    /// Shutdown has been signaled; completion handles are still held.
    Stopping,
    /// Every completion handle has been released: the process may exit.
    Stopped,
}

/// What the coordinator is told.
#[derive(Clone, Copy, Debug, PartialEq, Eq, Structural)]
pub enum ServerEvent {
    /// The operator asked for shutdown.
    Interrupted,
    /// The last completion handle has been released.
    AllReleased,
}

/// What the caller has to do after an event.
#[derive(Clone, Copy, Debug, PartialEq, Eq, Structural)]
pub enum ServerAction {
    /// Announce shutdown to every listener, release the server's own
    /// completion handle, and wait until all the others are released.
    Announce,
    /// Exit.
    Exit,
    /// Nothing.
    Nothing,
}

/// The coordinator's transition table. Only the first request for shutdown is
/// announced, and only a server that is stopping reacts to the release of the
/// handles: while it serves, its own handle is still held.
pub open spec fn coordinate(phase: ServerPhase, event: ServerEvent) -> (ServerPhase, ServerAction) {
    match (phase, event) {
        (ServerPhase::Serving, ServerEvent::Interrupted) => (
            ServerPhase::Stopping,
            ServerAction::Announce,
        ),
        (ServerPhase::Stopping, ServerEvent::AllReleased) => (ServerPhase::Stopped, ServerAction::Exit),
        _ => (phase, ServerAction::Nothing),
    }
}

/// Whether shutdown has been signaled in this phase.
pub open spec fn signaled_in(phase: ServerPhase) -> bool {
    phase != ServerPhase::Serving
}

/// The phase after a run of events.
pub open spec fn phase_after(phase: ServerPhase, events: Seq<ServerEvent>) -> ServerPhase
    decreases events.len(),
{
    if events.len() == 0 {
        phase
    } else {
        phase_after(coordinate(phase, events[0]).0, events.drop_first())
    }
}

/// How often a run of events asks for `action`.
pub open spec fn times_asked(phase: ServerPhase, events: Seq<ServerEvent>, action: ServerAction) -> nat
    decreases events.len(),
{
    if events.len() == 0 {
        0
    } else {
        let (then, asked) = coordinate(phase, events[0]);
        let now: nat = if asked == action {
            1
        } else {
            0
        };
        now + times_asked(then, events.drop_first(), action)
    }
}

/// Signaling shutdown is idempotent: a second request is not announced and
/// changes nothing.
pub proof fn lemma_signal_is_idempotent(phase: ServerPhase)
    ensures
        coordinate(coordinate(phase, ServerEvent::Interrupted).0, ServerEvent::Interrupted) == (
            coordinate(phase, ServerEvent::Interrupted).0,
            ServerAction::Nothing,
        ),
{
}

/// Shutdown, once signaled, stays signaled, whatever happens after it.
pub proof fn lemma_signal_stays(phase: ServerPhase, events: Seq<ServerEvent>)
    requires
        signaled_in(phase),
    ensures
        signaled_in(phase_after(phase, events)),
    decreases events.len(),
{
    if events.len() > 0 {
        lemma_signal_stays(coordinate(phase, events[0]).0, events.drop_first());
    }
}

/// Over any run of events from the start, shutdown is announced at most once
/// and the exit is asked for at most once; the exit is never asked for
/// without the announcement before it, and the server is stopped exactly if
/// the exit was asked for.
pub proof fn lemma_exit_follows_release(events: Seq<ServerEvent>)
    ensures
        times_asked(ServerPhase::Serving, events, ServerAction::Exit) <= times_asked(
            ServerPhase::Serving,
            events,
            ServerAction::Announce,
        ) <= 1,
        phase_after(ServerPhase::Serving, events) == ServerPhase::Stopped <==> times_asked(
            ServerPhase::Serving,
            events,
            ServerAction::Exit,
        ) == 1,
{
    lemma_counts_by_phase(ServerPhase::Serving, events);
}

/// What a run of events asks for, by the phase in which it starts and the
/// phase in which it ends.
pub proof fn lemma_counts_by_phase(phase: ServerPhase, events: Seq<ServerEvent>)
    ensures
        times_asked(phase, events, ServerAction::Announce) == (if phase == ServerPhase::Serving
            && signaled_in(phase_after(phase, events)) {
            1nat
        } else {
            0nat
        }),
        times_asked(phase, events, ServerAction::Exit) == (if phase != ServerPhase::Stopped
            && phase_after(phase, events) == ServerPhase::Stopped {
            1nat
        } else {
            0nat
        }),
        phase == ServerPhase::Stopped ==> phase_after(phase, events) == ServerPhase::Stopped,
    decreases events.len(),
{
    if events.len() > 0 {
        let then = coordinate(phase, events[0]).0;
        lemma_counts_by_phase(then, events.drop_first());
        if signaled_in(then) {
            lemma_signal_stays(then, events.drop_first());
        }
    }
}

/// The shutdown coordinator.
pub struct Coordinator {
    phase: ServerPhase,
}

impl Coordinator {
    /// Where the server stands.
    pub closed spec fn phase(&self) -> ServerPhase {
        self.phase
    }

    /// A coordinator of a server that serves.
    pub fn new() -> (coordinator: Self)
        ensures
            coordinator.phase() == ServerPhase::Serving,
    {
        Coordinator { phase: ServerPhase::Serving }
    }

    /// Takes one event, as [`coordinate`] says.
    pub fn handle(&mut self, event: ServerEvent) -> (action: ServerAction)
        ensures
            (final(self).phase(), action) == coordinate(old(self).phase(), event),
    {
        match (self.phase, event) {
            (ServerPhase::Serving, ServerEvent::Interrupted) => {
                self.phase = ServerPhase::Stopping;
                ServerAction::Announce
            },
            (ServerPhase::Stopping, ServerEvent::AllReleased) => {
                self.phase = ServerPhase::Stopped;
                ServerAction::Exit
            },
            _ => ServerAction::Nothing,
        }
    }

    /// Signals shutdown, and says whether it has to be announced: the first
    /// signal has, a later one has not.
    pub fn signal_shutdown(&mut self) -> (announce: bool)
        ensures
            final(self).phase() == coordinate(old(self).phase(), ServerEvent::Interrupted).0,
            announce == (coordinate(old(self).phase(), ServerEvent::Interrupted).1
                == ServerAction::Announce),
            signaled_in(final(self).phase()),
    {
        self.handle(ServerEvent::Interrupted) == ServerAction::Announce
    }

    /// Whether shutdown has been signaled.
    pub fn is_shutdown(&self) -> (signaled: bool)
        ensures
            signaled == signaled_in(self.phase()),
    {
        self.phase != ServerPhase::Serving
    }

    /// Whether the process may exit.
    pub fn is_stopped(&self) -> (stopped: bool)
        ensures
            stopped == (self.phase() == ServerPhase::Stopped),
    {
        self.phase == ServerPhase::Stopped
    }
}

} // verus!
