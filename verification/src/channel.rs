//! The tokio channel handles that the relay passes around, and what is taken
//! on trust about them. Nothing in this file is proved: each item says what is
//! believed of the tokio code that it names.

use vstd::prelude::*;
use tokio::sync::broadcast;
use tokio::sync::mpsc;
use crate::shutdown::SignalPoll;

verus! {

/// `tokio::sync::mpsc::UnboundedSender`, the sending half of an unbounded
/// channel. A value of it is carried around and never looked into.
#[verifier::external_type_specification]
#[verifier::external_body]
#[verifier::reject_recursive_types(T)]
pub struct ExUnboundedSender<T>(mpsc::UnboundedSender<T>);

/// `tokio::sync::mpsc::UnboundedReceiver`, the receiving half of an unbounded
/// channel. A value of it is carried around and never looked into.
#[verifier::external_type_specification]
#[verifier::external_body]
#[verifier::reject_recursive_types(T)]
pub struct ExUnboundedReceiver<T>(mpsc::UnboundedReceiver<T>);

/// `tokio::sync::mpsc::Sender`, the sending half of a bounded channel. The
/// relay never sends on it: it is held so that dropping it tells the other
/// end that its holder is gone.
#[verifier::external_type_specification]
#[verifier::external_body]
#[verifier::reject_recursive_types(T)]
pub struct ExSender<T>(mpsc::Sender<T>);

/// `tokio::sync::broadcast::Receiver`, one subscription to a broadcast
/// channel. A value of it is carried around and never looked into.
#[verifier::external_type_specification]
#[verifier::external_body]
#[verifier::reject_recursive_types(T)]
pub struct ExBroadcastReceiver<T>(broadcast::Receiver<T>);

/// `tokio::sync::mpsc::error::SendError`, what a refused `send` hands back.
#[verifier::external_type_specification]
#[verifier::external_body]
#[verifier::reject_recursive_types(T)]
pub struct ExSendError<T>(mpsc::error::SendError<T>);

/// `tokio::sync::mpsc::error::TryRecvError`, why `try_recv` on an unbounded
/// receiver gave no item.
#[verifier::external_type_specification]
#[verifier::external_body]
pub struct ExTryRecvError(mpsc::error::TryRecvError);

/// `tokio::sync::mpsc::UnboundedSender::send`: offers `message` to the channel
/// without waiting. Nothing is claimed of the result. Whether the item is taken
/// depends on whether the receiving half is still open, which can change
/// between any two calls. (The call gives up the whole process rather than
/// return if the count of buffered items would overflow; memory runs out long
/// before that many are buffered.)
pub assume_specification<T>[ mpsc::UnboundedSender::<T>::send ](
    tx: &mpsc::UnboundedSender<T>,
    message: T,
) -> (taken: Result<(), mpsc::error::SendError<T>>)
;

/// `Clone::clone` of `tokio::sync::mpsc::UnboundedSender`: another handle to
/// the channel of `tx`. Nothing is claimed of the result.
pub assume_specification<T>[ <mpsc::UnboundedSender<T> as Clone>::clone ](
    tx: &mpsc::UnboundedSender<T>,
) -> (handle: mpsc::UnboundedSender<T>)
;

/// `tokio::sync::mpsc::UnboundedReceiver::try_recv`: takes the next buffered
/// item, if there is one, without waiting. Nothing is claimed of the result or
/// of the receiver afterwards: what is buffered depends on the senders.
pub assume_specification<T>[ mpsc::UnboundedReceiver::<T>::try_recv ](
    rx: &mut mpsc::UnboundedReceiver<T>,
) -> (next: Result<T, mpsc::error::TryRecvError>)
;

/// `tokio::sync::broadcast::Receiver::try_recv` on the shutdown broadcast,
/// with each of its four outcomes handed on under the same name: a value was
/// received, every sender is gone, nothing is pending, or the receiver lagged
/// by the given number of values. Nothing is claimed of which one comes back,
/// nor of the receiver afterwards.
#[verifier::external_body]
pub(crate) fn poll_signal(listener: &mut broadcast::Receiver<()>) -> (found: SignalPoll) {
    match listener.try_recv() {
        Ok(()) => SignalPoll::Received,
        Err(broadcast::error::TryRecvError::Closed) => SignalPoll::Closed,
        Err(broadcast::error::TryRecvError::Empty) => SignalPoll::Empty,
        Err(broadcast::error::TryRecvError::Lagged(missed)) => SignalPoll::Lagged(missed),
    }
}

} // verus!
