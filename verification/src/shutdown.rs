//! One listener's side of the shutdown protocol.
//!
//! Shutdown is announced on a broadcast channel, either by a value sent on it
//! or by every sender going away. Each long-running part of the server holds a
//! [`Shutdown`]: it polls the broadcast, remembers once the announcement was
//! seen, and carries a completion handle whose drop tells the coordinator that
//! this part is done.

use vstd::prelude::*;
use tokio::sync::broadcast;
use tokio::sync::mpsc;
use crate::channel::poll_signal;

verus! {

pub type ShutdownListener = broadcast::Receiver<()>;

/// What one poll of the shutdown broadcast found.
#[derive(Clone, Copy, Debug, PartialEq, Eq, Structural)]
pub enum SignalPoll {
    /// A shutdown value was pending and has been received.
    Received,
    /// Every sender is gone: no value will ever arrive.
    Closed,
    /// Nothing is pending; senders are still alive.
    Empty,
    /// The listener fell behind and missed this many values.
    Lagged(u64),
}

/// Whether a poll result announces shutdown: a received value does, and so
/// does a closed channel, so that a listener that subscribes after the
/// announcement still sees it. An empty channel and a lag do not.
pub open spec fn announces_shutdown(found: SignalPoll) -> bool {
    found is Received || found is Closed
}

/// Decides whether `found` announces shutdown.
pub fn signals_shutdown(found: SignalPoll) -> (announced: bool)
    ensures
        announced == announces_shutdown(found),
{
    match found {
        SignalPoll::Received | SignalPoll::Closed => true,
        SignalPoll::Empty | SignalPoll::Lagged(_) => false,
    }
}

/// A listener for the shutdown announcement, with its completion handle.
pub struct Shutdown {
    // True once the announcement has been seen.
    shutdown: bool,
    // Where the announcement arrives.
    shutdown_listener: ShutdownListener,
    // Dropped with this value; the coordinator waits for every such handle.
    _shutdown_complete_tx: mpsc::Sender<()>,
}

impl Shutdown {
    /// Whether the announcement has been seen.
    pub closed spec fn signaled(&self) -> bool {
        self.shutdown
    }

    /// The subscription that is polled.
    pub closed spec fn listener(&self) -> ShutdownListener {
        self.shutdown_listener
    }

    /// The completion handle that is held.
    pub closed spec fn completion(&self) -> mpsc::Sender<()> {
        self._shutdown_complete_tx
    }

    /// A listener that has not seen the announcement yet.
    pub fn new(shutdown_listener: ShutdownListener, shutdown_complete: mpsc::Sender<()>) -> (s: Self)
        ensures
            !s.signaled(),
            s.listener() == shutdown_listener,
            s.completion() == shutdown_complete,
    {
        Shutdown { shutdown: false, shutdown_listener, _shutdown_complete_tx: shutdown_complete }
    }

    /// Whether the announcement has been seen.
    pub fn is_shutdown(&self) -> (seen: bool)
        ensures
            seen == self.signaled(),
    {
        self.shutdown
    }

    /// Takes note of one poll result: the announcement counts as seen from the
    /// first result that announces it, and for good.
    pub fn observe(&mut self, found: SignalPoll)
        ensures
            final(self).signaled() == (old(self).signaled() || announces_shutdown(found)),
            final(self).listener() == old(self).listener(),
            final(self).completion() == old(self).completion(),
    {
        if signals_shutdown(found) {
            self.shutdown = true;
        }
    }

    /// Polls the broadcast once, without waiting, unless the announcement was
    /// seen before. Whatever the poll finds, an announcement that was seen
    /// stays seen, and then the subscription is left alone.
    pub fn listen(&mut self)
        ensures
            old(self).signaled() ==> *final(self) == *old(self),
            final(self).completion() == old(self).completion(),
    {
        if self.shutdown {
            return ;
        }
        let found = poll_signal(&mut self.shutdown_listener);
        self.observe(found);
    }

    /// The subscription, for a caller that waits on it. Only the subscription
    /// can change through the reference.
    pub fn listener_mut(&mut self) -> (listener: &mut ShutdownListener)
        ensures
            *listener == old(self).listener(),
            final(self).listener() == *final(listener),
            final(self).signaled() == old(self).signaled(),
            final(self).completion() == old(self).completion(),
    {
        &mut self.shutdown_listener
    }

    /// Records that a wait on the subscription has ended, which the listener
    /// takes for the announcement whatever the wait returned.
    pub fn wait_ended(&mut self)
        ensures
            final(self).signaled(),
            final(self).listener() == old(self).listener(),
            final(self).completion() == old(self).completion(),
    {
        self.shutdown = true;
    }
}

} // verus!
