//! The channels of a connection, which are those of `tokio::sync`.
//!
//! A handle is taken for the channel that it leads to: two handles are equal when they
//! lead to the same channel. What a channel holds changes under all of its handles at
//! once, so nothing is said of it here.

use crate::ws::state::ConnectionState;
use tokio::sync::{broadcast, mpsc, watch};
use vstd::prelude::*;

verus! {

/// `tokio::sync::mpsc::UnboundedSender`
#[verifier::external_type_specification]
#[verifier::external_body]
#[verifier::reject_recursive_types(T)]
pub struct ExUnboundedSender<T>(mpsc::UnboundedSender<T>);

/// `tokio::sync::mpsc::UnboundedReceiver`
#[verifier::external_type_specification]
#[verifier::external_body]
#[verifier::reject_recursive_types(T)]
pub struct ExUnboundedReceiver<T>(mpsc::UnboundedReceiver<T>);

/// `tokio::sync::broadcast::Sender`
#[verifier::external_type_specification]
#[verifier::external_body]
#[verifier::reject_recursive_types(T)]
pub struct ExBroadcastSender<T>(broadcast::Sender<T>);

/// `tokio::sync::broadcast::Receiver`
#[verifier::external_type_specification]
#[verifier::external_body]
#[verifier::reject_recursive_types(T)]
pub struct ExBroadcastReceiver<T>(broadcast::Receiver<T>);

/// `tokio::sync::watch::Sender`
#[verifier::external_type_specification]
#[verifier::external_body]
#[verifier::reject_recursive_types(T)]
pub struct ExWatchSender<T>(watch::Sender<T>);

/// `tokio::sync::watch::Receiver`
#[verifier::external_type_specification]
#[verifier::external_body]
#[verifier::reject_recursive_types(T)]
pub struct ExWatchReceiver<T>(watch::Receiver<T>);

/// `tokio::sync::mpsc::error::SendError`
#[verifier::external_type_specification]
#[verifier::external_body]
#[verifier::reject_recursive_types(T)]
pub struct ExMpscSendError<T>(mpsc::error::SendError<T>);

/// `tokio::sync::broadcast::error::SendError`
#[verifier::external_type_specification]
#[verifier::external_body]
#[verifier::reject_recursive_types(T)]
pub struct ExBroadcastSendError<T>(broadcast::error::SendError<T>);

/// `tokio::sync::watch::error::SendError`
#[verifier::external_type_specification]
#[verifier::external_body]
#[verifier::reject_recursive_types(T)]
pub struct ExWatchSendError<T>(watch::error::SendError<T>);

/// `tokio::sync::mpsc::unbounded_channel` makes a channel of its own. Nothing is claimed
/// of the two ends.
pub assume_specification<T>[ mpsc::unbounded_channel::<T> ]() -> (r: (
    mpsc::UnboundedSender<T>,
    mpsc::UnboundedReceiver<T>,
));

/// `tokio::sync::broadcast::channel` makes a channel that keeps `capacity` messages,
/// rounded up to a power of two, for receivers that lag. It panics on a capacity of zero,
/// and on one above half of `usize::MAX`. Nothing is claimed of the two ends.
pub assume_specification<T: Clone>[ broadcast::channel::<T> ](capacity: usize) -> (r: (
    broadcast::Sender<T>,
    broadcast::Receiver<T>,
))
    requires
        0 < capacity <= usize::MAX / 2,
;

/// `tokio::sync::watch::channel` makes a channel that holds `init` until another value is
/// sent. Nothing is claimed of the two ends.
pub assume_specification<T>[ watch::channel::<T> ](init: T) -> (r: (
    watch::Sender<T>,
    watch::Receiver<T>,
));

/// The `Clone` of `tokio::sync::mpsc::UnboundedSender` gives another handle to the same channel.
pub assume_specification<T>[ <mpsc::UnboundedSender<T> as Clone>::clone ](
    sender: &mpsc::UnboundedSender<T>,
) -> (r: mpsc::UnboundedSender<T>)
    ensures
        r == *sender,
;

/// The `Clone` of `tokio::sync::broadcast::Sender` gives another handle to the same channel.
pub assume_specification<T>[ <broadcast::Sender<T> as Clone>::clone ](
    sender: &broadcast::Sender<T>,
) -> (r: broadcast::Sender<T>)
    ensures
        r == *sender,
;

/// The `Clone` of `tokio::sync::watch::Sender` gives another handle to the same channel.
pub assume_specification<T>[ <watch::Sender<T> as Clone>::clone ](sender: &watch::Sender<T>) -> (r:
    watch::Sender<T>)
    ensures
        r == *sender,
;

/// The `Clone` of `tokio::sync::watch::Receiver` gives another handle to the same channel,
/// which has seen as much of it.
pub assume_specification<T>[ <watch::Receiver<T> as Clone>::clone ](
    receiver: &watch::Receiver<T>,
) -> (r: watch::Receiver<T>)
    ensures
        r == *receiver,
;

/// `tokio::sync::broadcast::Sender::subscribe` makes a receiver of what is sent from now
/// on. Nothing is claimed of it. (It panics on more receivers than memory can hold.)
pub assume_specification<T>[ broadcast::Sender::<T>::subscribe ](
    sender: &broadcast::Sender<T>,
) -> (r: broadcast::Receiver<T>);

/// `tokio::sync::watch::Sender::subscribe` makes a receiver of the value of the channel,
/// for which the present value counts as seen. Nothing is claimed of it.
pub assume_specification<T>[ watch::Sender::<T>::subscribe ](sender: &watch::Sender<T>) -> (r:
    watch::Receiver<T>);

/// `tokio::sync::mpsc::UnboundedSender::send` puts `message` on the channel, or gives it
/// back in an error if the receiving end is closed. Which of the two depends on the
/// receiver at that moment, so nothing is claimed of the result.
pub assume_specification<T>[ mpsc::UnboundedSender::<T>::send ](
    sender: &mpsc::UnboundedSender<T>,
    message: T,
) -> (r: Result<(), mpsc::error::SendError<T>>);

/// `tokio::sync::mpsc::UnboundedReceiver::is_closed` tells whether all senders of the
/// channel are gone. That changes with time, so nothing is claimed of the result.
pub assume_specification<T>[ mpsc::UnboundedReceiver::<T>::is_closed ](
    receiver: &mpsc::UnboundedReceiver<T>,
) -> (r: bool);

/// `tokio::sync::broadcast::Sender::send` hands `value` to the receivers that there are at
/// that moment, or gives it back in an error if there are none. Nothing is claimed of the
/// result.
pub assume_specification<T>[ broadcast::Sender::<T>::send ](
    sender: &broadcast::Sender<T>,
    value: T,
) -> (r: Result<usize, broadcast::error::SendError<T>>);

/// `tokio::sync::watch::Sender::send` makes `value` the value of the channel, or gives it
/// back in an error if there are no receivers at that moment. Nothing is claimed of the
/// result.
pub assume_specification<T>[ watch::Sender::<T>::send ](sender: &watch::Sender<T>, value: T) -> (r:
    Result<(), watch::error::SendError<T>>);

/// Copies the value that `tokio::sync::watch::Receiver::borrow` gives: the last one sent.
/// It changes with time, so nothing is claimed of it.
#[verifier::external_body]
pub(crate) fn last_state(receiver: &watch::Receiver<ConnectionState>) -> (r: ConnectionState) {
    *receiver.borrow()
}

} // verus!
