//! The boundary to tokio's channels.
//!
//! The queues between the foreground and the session are tokio's bounded channels.
//! Nothing in this file is proved: each item states what is taken on trust from
//! tokio, and the rest of the crate is verified against these statements.

use vstd::prelude::*;

use crate::client::{SubmitError, Task};

verus! {

/// The sending half of tokio's bounded channel, `tokio::sync::mpsc::Sender`.
#[verifier::external_type_specification]
#[verifier::external_body]
#[verifier::reject_recursive_types(T)]
pub struct ExSender<T>(tokio::sync::mpsc::Sender<T>);

/// The receiving half of tokio's bounded channel, `tokio::sync::mpsc::Receiver`.
#[verifier::external_type_specification]
#[verifier::external_body]
#[verifier::reject_recursive_types(T)]
pub struct ExReceiver<T>(tokio::sync::mpsc::Receiver<T>);

/// The sending half of tokio's one-shot channel, `tokio::sync::oneshot::Sender`.
#[verifier::external_type_specification]
#[verifier::external_body]
#[verifier::reject_recursive_types(T)]
pub struct ExOneshotSender<T>(tokio::sync::oneshot::Sender<T>);

/// The number of tasks that the queue behind `tx` was made to hold.
pub uninterp spec fn queue_bound(tx: tokio::sync::mpsc::Sender<Task>) -> usize;

/// The number of lines that the mailbox behind `rx` was made to hold.
pub uninterp spec fn mailbox_bound(rx: tokio::sync::mpsc::Receiver<String>) -> usize;

/// The largest capacity that tokio accepts for a bounded channel.
pub open spec fn max_capacity() -> int {
    usize::MAX as int / 8
}

/// What a poll that does not block found in a channel.
pub enum Taken<T> {
    /// The oldest value that was waiting.
    Item(T),
    /// Nothing was waiting; senders are still there.
    Empty,
    /// Nothing was waiting and every sender is gone.
    Closed,
}

/// `tokio::sync::mpsc::channel` for tasks. tokio panics on a capacity of zero and on
/// one above `usize::MAX >> 3`; for any other it returns the two halves of a channel
/// that buffers up to `capacity` values.
#[verifier::external_body]
pub(crate) fn task_queue(capacity: usize) -> (ends: (
    tokio::sync::mpsc::Sender<Task>,
    tokio::sync::mpsc::Receiver<Task>,
))
    requires
        0 < capacity <= max_capacity(),
    ensures
        queue_bound(ends.0) == capacity,
{
    tokio::sync::mpsc::channel(capacity)
}

/// `tokio::sync::mpsc::channel` for lines, with the same claim as `task_queue` makes
/// for tasks.
#[verifier::external_body]
pub(crate) fn line_mailbox(capacity: usize) -> (ends: (
    tokio::sync::mpsc::Sender<String>,
    tokio::sync::mpsc::Receiver<String>,
))
    requires
        0 < capacity <= max_capacity(),
    ensures
        mailbox_bound(ends.1) == capacity,
{
    tokio::sync::mpsc::channel(capacity)
}

/// `tokio::sync::mpsc::Sender::try_send`. It returns at once. When the channel is
/// full or its receiver is gone, the error carries the value that was offered; that
/// the value is the same one is all that is claimed.
#[verifier::external_body]
pub(crate) fn offer(tx: &tokio::sync::mpsc::Sender<Task>, task: Task) -> (outcome: Result<
    (),
    SubmitError,
>)
    ensures
        outcome matches Err(refusal) ==> refusal.task() == task,
{
    match tx.try_send(task) {
        Ok(()) => Ok(()),
        Err(tokio::sync::mpsc::error::TrySendError::Full(task)) => Err(SubmitError::Full(task)),
        Err(tokio::sync::mpsc::error::TrySendError::Closed(task)) => Err(
            SubmitError::Closed(task),
        ),
    }
}

/// `tokio::sync::mpsc::Receiver::try_recv`. It returns at once, or as soon as a send
/// that is under way has finished. Which of the three outcomes comes back depends on
/// what the senders have done, so nothing is claimed of it.
#[verifier::external_body]
pub(crate) fn take<T>(rx: &mut tokio::sync::mpsc::Receiver<T>) -> Taken<T> {
    match rx.try_recv() {
        Ok(item) => Taken::Item(item),
        Err(tokio::sync::mpsc::error::TryRecvError::Empty) => Taken::Empty,
        Err(tokio::sync::mpsc::error::TryRecvError::Disconnected) => Taken::Closed,
    }
}

/// `tokio::sync::oneshot::Sender::send`. It never waits. When the receiver is gone
/// the value that was to be sent comes back in the error.
pub assume_specification<T>[ tokio::sync::oneshot::Sender::<T>::send ](
    tx: tokio::sync::oneshot::Sender<T>,
    t: T,
) -> (outcome: Result<(), T>)
    ensures
        outcome matches Err(back) ==> back == t,
;

} // verus!
