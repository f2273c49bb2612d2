use vstd::prelude::*;

verus! {

#[verifier::external_type_specification]
#[verifier::external_body]
#[verifier::reject_recursive_types(T)]
pub struct ExSender<T>(flume::Sender<T>);

#[verifier::external_type_specification]
#[verifier::external_body]
#[verifier::reject_recursive_types(T)]
pub struct ExReceiver<T>(flume::Receiver<T>);

#[verifier::external_type_specification]
#[verifier::external_body]
#[verifier::reject_recursive_types(T)]
pub struct ExSendError<T>(flume::SendError<T>);

#[verifier::external_type_specification]
#[verifier::external_body]
pub struct ExRecvError(flume::RecvError);

#[verifier::external_type_specification]
#[verifier::external_body]
pub struct ExTryRecvError(flume::TryRecvError);

/// Relies on flume::bounded: a channel that holds at most `cap` messages,
/// whose sender blocks while it is full. It does not fail or panic.
pub assume_specification<T>[ flume::bounded::<T> ](cap: usize) -> (flume::Sender<T>, flume::Receiver<T>);

/// Relies on flume::Sender::send: blocks while a bounded channel is full and
/// fails only once every receiver is gone. Which of the two happens depends
/// on other threads, so nothing is stated of the outcome.
pub assume_specification<T>[ flume::Sender::<T>::send ](
    tx: &flume::Sender<T>,
    msg: T,
) -> core::result::Result<(), flume::SendError<T>>;

/// Relies on flume::Receiver::recv: waits for a message and fails only once
/// every sender is gone with nothing left in the channel.
pub assume_specification<T>[ flume::Receiver::<T>::recv ](
    rx: &flume::Receiver<T>,
) -> core::result::Result<T, flume::RecvError>;

/// Relies on flume::Receiver::try_recv: takes a waiting message without
/// blocking, or fails when there is none.
pub assume_specification<T>[ flume::Receiver::<T>::try_recv ](
    rx: &flume::Receiver<T>,
) -> core::result::Result<T, flume::TryRecvError>;

/// How many frames may wait between the producer and the engine: the
/// backpressure bound of the frame pipeline.
pub const FRAME_CHANNEL_CAPACITY: usize = 2;

/// How many values a rendezvous channel holds: it hands over exactly one.
pub const RENDEZVOUS_CAPACITY: usize = 1;

/// A channel that carries frames from the producer to the provider, bounded
/// by `FRAME_CHANNEL_CAPACITY`.
pub fn frame_channel<T>() -> (flume::Sender<T>, flume::Receiver<T>) {
    flume::bounded(FRAME_CHANNEL_CAPACITY)
}

/// A channel that hands one value from the main thread back to a waiting
/// caller.
pub fn rendezvous_channel<T>() -> (flume::Sender<T>, flume::Receiver<T>) {
    flume::bounded(RENDEZVOUS_CAPACITY)
}

} // verus!
