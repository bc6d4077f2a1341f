//! The tokio channels that connect the handler, its workers and the library's
//! user. Their contents live in tokio's shared state, which no contract here
//! speaks of: the items carry the handles through and say what tokio documents
//! of them.
use vstd::prelude::*;
use tokio::sync::mpsc::error::SendError as ChannelClosed;

verus! {

#[verifier::external_type_specification]
#[verifier::external_body]
#[verifier::reject_recursive_types(T)]
pub struct ExUnboundedSender<T>(tokio::sync::mpsc::UnboundedSender<T>);

#[verifier::external_type_specification]
#[verifier::external_body]
#[verifier::reject_recursive_types(T)]
pub struct ExWeakUnboundedSender<T>(tokio::sync::mpsc::WeakUnboundedSender<T>);

#[verifier::external_type_specification]
#[verifier::external_body]
#[verifier::reject_recursive_types(T)]
pub struct ExSender<T>(tokio::sync::mpsc::Sender<T>);

#[verifier::external_type_specification]
#[verifier::external_body]
#[verifier::reject_recursive_types(T)]
pub struct ExReceiver<T>(tokio::sync::mpsc::Receiver<T>);

#[verifier::external_type_specification]
#[verifier::external_body]
#[verifier::reject_recursive_types(T)]
pub struct ExChannelClosed<T>(ChannelClosed<T>);

/// `UnboundedSender::send`: queues `message` unless the receiving half is
/// closed. Whether it is depends on the other tasks, so nothing is claimed of
/// the outcome.
#[verifier::external_body]
pub(crate) fn unbounded_send<T>(
    tx: &tokio::sync::mpsc::UnboundedSender<T>,
    message: T,
) -> (r: Result<(), ChannelClosed<T>>) {
    tx.send(message)
}


/// `mpsc::channel`: a bounded channel with room for `buffer` messages. tokio
/// panics on a zero buffer and on one above its semaphore's limit
/// (`usize::MAX >> 3`), so both are left out. The new halves are opaque.
#[verifier::external_body]
pub(crate) fn bounded_channel<T>(buffer: usize) -> (r: (
    tokio::sync::mpsc::Sender<T>,
    tokio::sync::mpsc::Receiver<T>,
))
    requires
        0 < buffer <= usize::MAX / 8,
{
    tokio::sync::mpsc::channel(buffer)
}

/// `Sender::clone`: another handle to the same channel (it holds the same
/// shared pointer), so the clone equals the original.
#[verifier::external_body]
pub(crate) fn sender_clone<T>(tx: &tokio::sync::mpsc::Sender<T>) -> (r: tokio::sync::mpsc::Sender<T>)
    ensures
        r == *tx,
{
    tx.clone()
}

/// `WeakUnboundedSender::clone`: another weak handle to the same channel.
#[verifier::external_body]
pub(crate) fn weak_clone<T>(
    tx: &tokio::sync::mpsc::WeakUnboundedSender<T>,
) -> (r: tokio::sync::mpsc::WeakUnboundedSender<T>)
    ensures
        r == *tx,
{
    tx.clone()
}

/// `WeakUnboundedSender::upgrade`: a strong handle while any strong sender is
/// alive, else `None`. That depends on the other tasks: nothing is claimed.
#[verifier::external_body]
pub(crate) fn weak_upgrade<T>(
    tx: &tokio::sync::mpsc::WeakUnboundedSender<T>,
) -> (r: Option<tokio::sync::mpsc::UnboundedSender<T>>) {
    tx.upgrade()
}

} // verus!
