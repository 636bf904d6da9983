//! The channels and the cancellation signal that a session is built on.
//!
//! Each item here states what is taken on trust of `tokio` and `tokio-util`.
//! The handles share their state with other handles, in other tasks, so
//! almost nothing is promised of what a call returns.

use tokio::sync::broadcast;
use tokio::sync::mpsc;
use tokio_util::sync::CancellationToken;
use vstd::prelude::*;

verus! {

/// `tokio::sync::mpsc::Sender`: the producer end of the input queue.
#[verifier::external_type_specification]
#[verifier::external_body]
#[verifier::reject_recursive_types(T)]
pub struct ExInputSender<T>(mpsc::Sender<T>);

/// `tokio::sync::mpsc::Receiver`: the single consumer end of the input queue.
#[verifier::external_type_specification]
#[verifier::external_body]
#[verifier::reject_recursive_types(T)]
pub struct ExInputReceiver<T>(mpsc::Receiver<T>);

/// `tokio::sync::broadcast::Sender`: the publisher of the fan-out.
#[verifier::external_type_specification]
#[verifier::external_body]
#[verifier::reject_recursive_types(T)]
pub struct ExFanOutSender<T>(broadcast::Sender<T>);

/// `tokio::sync::broadcast::Receiver`: one subscriber's end of the fan-out.
#[verifier::external_type_specification]
#[verifier::external_body]
#[verifier::reject_recursive_types(T)]
pub struct ExFanOutReceiver<T>(broadcast::Receiver<T>);

/// `tokio::sync::broadcast::error::SendError`: a value that found no
/// subscriber, handed back.
#[verifier::external_type_specification]
#[verifier::external_body]
#[verifier::reject_recursive_types(T)]
pub struct ExFanOutSendError<T>(broadcast::error::SendError<T>);

/// `tokio_util::sync::CancellationToken`.
#[verifier::external_type_specification]
#[verifier::external_body]
pub struct ExCancellationToken(CancellationToken);

/// `tokio::sync::mpsc::channel` makes a bounded queue. It panics where the
/// bound is 0 or above the number of permits of tokio's semaphore, which is
/// `usize::MAX >> 3`; nothing is claimed of the two ends it returns.
pub assume_specification<T>[ mpsc::channel::<T> ](buffer: usize) -> (ends: (
    mpsc::Sender<T>,
    mpsc::Receiver<T>,
))
    requires
        0 < buffer <= usize::MAX / 8,
;

/// `tokio::sync::broadcast::channel` makes a ring buffer with one first
/// receiver. It panics where the capacity is 0 or above `usize::MAX / 2`;
/// nothing is claimed of the two ends it returns.
pub assume_specification<T: Clone>[ broadcast::channel::<T> ](capacity: usize) -> (ends: (
    broadcast::Sender<T>,
    broadcast::Receiver<T>,
))
    requires
        0 < capacity <= usize::MAX / 2,
;

/// `Clone` of `tokio::sync::mpsc::Sender`: another producer end of the same
/// queue. A sender is one shared pointer to its queue, and the clone holds
/// the same pointer: as a value, the clone is the sender it was made from.
pub assume_specification<T>[ <mpsc::Sender<T> as Clone>::clone ](sender: &mpsc::Sender<T>) -> (res:
    mpsc::Sender<T>)
    ensures
        res == *sender,
;

/// `tokio::sync::broadcast::Sender::subscribe` hands out a receiver for what
/// is sent from now on. Nothing is claimed of it. It panics only where
/// `usize::MAX >> 2` receivers of one channel are alive at once, more than
/// memory can hold.
pub assume_specification<T>[ broadcast::Sender::<T>::subscribe ](
    sender: &broadcast::Sender<T>,
) -> (res: broadcast::Receiver<T>)
;

/// `tokio::sync::broadcast::Sender::send` stores the value for every
/// receiver that is alive and returns at once. It gives their number, or the
/// value back where there is none. Nothing is claimed of which it is.
pub assume_specification<T>[ broadcast::Sender::<T>::send ](
    sender: &broadcast::Sender<T>,
    value: T,
) -> (res: Result<usize, broadcast::error::SendError<T>>)
;

/// `CancellationToken::new` makes a token. Nothing is claimed of it: whether
/// a token is cancelled is shared with its clones, and may change at any
/// time.
pub assume_specification[ CancellationToken::new ]() -> (token: CancellationToken)
;

/// `Clone` of `CancellationToken`: a token that is cancelled when this one
/// is, and the other way round. Nothing is claimed of it.
pub assume_specification[ <CancellationToken as Clone>::clone ](token: &CancellationToken) -> (res:
    CancellationToken)
;

/// `CancellationToken::cancel` signals cancellation to all who hold a clone.
pub assume_specification[ CancellationToken::cancel ](token: &CancellationToken)
;

/// `CancellationToken::is_cancelled` tells whether cancellation was
/// signalled. Nothing is claimed of the answer.
pub assume_specification[ CancellationToken::is_cancelled ](token: &CancellationToken) -> (res:
    bool)
;

} // verus!
