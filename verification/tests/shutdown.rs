use bi_chat::shutdown::{signals_shutdown, Shutdown, SignalPoll};

use tokio::sync::{broadcast, mpsc};

#[test]
fn only_a_value_or_a_closed_channel_announces_shutdown() {
    assert!(signals_shutdown(SignalPoll::Received));
    assert!(signals_shutdown(SignalPoll::Closed));
    assert!(!signals_shutdown(SignalPoll::Empty));
    assert!(!signals_shutdown(SignalPoll::Lagged(1)));
    assert!(!signals_shutdown(SignalPoll::Lagged(u64::MAX)));
}

#[test]
fn a_new_listener_has_seen_nothing() {
    let (notify_shutdown, listener) = broadcast::channel(1);
    let (complete_tx, _complete_rx) = mpsc::channel(1);
    let shutdown = Shutdown::new(listener, complete_tx);
    assert!(!shutdown.is_shutdown());
    drop(notify_shutdown);
    // Not polled yet, so still nothing seen.
    assert!(!shutdown.is_shutdown());
}

#[test]
fn listen_finds_nothing_while_the_sender_is_silent() {
    let (_notify_shutdown, listener) = broadcast::channel(1);
    let (complete_tx, _complete_rx) = mpsc::channel(1);
    let mut shutdown = Shutdown::new(listener, complete_tx);
    shutdown.listen();
    assert!(!shutdown.is_shutdown());
    shutdown.listen();
    assert!(!shutdown.is_shutdown());
}

#[test]
fn listen_sees_a_sent_value() {
    let (notify_shutdown, listener) = broadcast::channel(1);
    let (complete_tx, _complete_rx) = mpsc::channel(1);
    let mut shutdown = Shutdown::new(listener, complete_tx);
    notify_shutdown.send(()).unwrap();
    shutdown.listen();
    assert!(shutdown.is_shutdown());
}

#[test]
fn listen_sees_a_dropped_sender() {
    let (notify_shutdown, listener) = broadcast::channel(1);
    let (complete_tx, _complete_rx) = mpsc::channel(1);
    let mut shutdown = Shutdown::new(listener, complete_tx);
    drop(notify_shutdown);
    shutdown.listen();
    assert!(shutdown.is_shutdown());
}

#[test]
fn a_late_subscriber_still_sees_the_shutdown() {
    let (notify_shutdown, _first) = broadcast::channel::<()>(1);
    let late = notify_shutdown.subscribe();
    drop(notify_shutdown);
    let (complete_tx, _complete_rx) = mpsc::channel(1);
    let mut shutdown = Shutdown::new(late, complete_tx);
    shutdown.listen();
    assert!(shutdown.is_shutdown());
}

#[test]
fn a_lag_is_no_shutdown_but_the_value_behind_it_is() {
    let (notify_shutdown, listener) = broadcast::channel(1);
    let (complete_tx, _complete_rx) = mpsc::channel(1);
    let mut shutdown = Shutdown::new(listener, complete_tx);
    notify_shutdown.send(()).unwrap();
    notify_shutdown.send(()).unwrap();
    shutdown.listen();
    assert!(!shutdown.is_shutdown());
    shutdown.listen();
    assert!(shutdown.is_shutdown());
}

#[test]
fn a_seen_shutdown_stays_seen() {
    let (notify_shutdown, listener) = broadcast::channel(1);
    let (complete_tx, _complete_rx) = mpsc::channel(1);
    let mut shutdown = Shutdown::new(listener, complete_tx);
    notify_shutdown.send(()).unwrap();
    shutdown.listen();
    assert!(shutdown.is_shutdown());
    shutdown.listen();
    shutdown.observe(SignalPoll::Empty);
    shutdown.observe(SignalPoll::Lagged(3));
    assert!(shutdown.is_shutdown());
}

#[test]
fn observe_goes_by_the_poll_result() {
    let (_notify_shutdown, listener) = broadcast::channel(1);
    let (complete_tx, _complete_rx) = mpsc::channel(1);
    let mut shutdown = Shutdown::new(listener, complete_tx);
    shutdown.observe(SignalPoll::Empty);
    assert!(!shutdown.is_shutdown());
    shutdown.observe(SignalPoll::Lagged(2));
    assert!(!shutdown.is_shutdown());
    shutdown.observe(SignalPoll::Closed);
    assert!(shutdown.is_shutdown());
}

#[test]
fn wait_ended_counts_as_shutdown() {
    let (_notify_shutdown, listener) = broadcast::channel(1);
    let (complete_tx, _complete_rx) = mpsc::channel(1);
    let mut shutdown = Shutdown::new(listener, complete_tx);
    shutdown.wait_ended();
    assert!(shutdown.is_shutdown());
}

#[test]
fn listener_mut_hands_out_the_subscription() {
    let (notify_shutdown, listener) = broadcast::channel(1);
    let (complete_tx, _complete_rx) = mpsc::channel(1);
    let mut shutdown = Shutdown::new(listener, complete_tx);
    notify_shutdown.send(()).unwrap();
    assert_eq!(shutdown.listener_mut().try_recv(), Ok(()));
    assert!(!shutdown.is_shutdown());
    // The value is consumed: the next poll finds the channel empty.
    shutdown.listen();
    assert!(!shutdown.is_shutdown());
}

#[test]
fn dropping_the_listener_releases_its_completion_handle() {
    let (_notify_shutdown, listener) = broadcast::channel::<()>(1);
    let (complete_tx, mut complete_rx) = mpsc::channel::<()>(1);
    let shutdown = Shutdown::new(listener, complete_tx);
    assert!(matches!(complete_rx.try_recv(), Err(mpsc::error::TryRecvError::Empty)));
    drop(shutdown);
    assert!(matches!(
        complete_rx.try_recv(),
        Err(mpsc::error::TryRecvError::Disconnected)
    ));
}
