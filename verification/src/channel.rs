//! The channel endpoints of `async_channel` as the library uses them.
//!
//! The trusted items here state nothing about what a channel holds: whether a
//! send is accepted or a receive yields a value depends on the other end,
//! which may live on another task.

use async_channel::{Receiver, Sender, TrySendError};
use vstd::prelude::*;

verus! {

#[verifier::external_type_specification]
#[verifier::external_body]
#[verifier::reject_recursive_types(T)]
pub struct ExSender<T>(async_channel::Sender<T>);

#[verifier::external_type_specification]
#[verifier::external_body]
#[verifier::reject_recursive_types(T)]
pub struct ExReceiver<T>(async_channel::Receiver<T>);

/// `Sender::clone` gives another sender into the same channel: it holds the same shared
/// channel and only counts one more sender, so the clone stands for the same value. The
/// derived `Clone` of a request calls it.
pub assume_specification<T>[ <async_channel::Sender<T> as Clone>::clone ](tx: &Sender<T>) -> (r: Sender<T>)
    ensures
        r == *tx,
;

/// Why a message was not accepted by a channel; the message is handed back.
pub enum SendFailure<T> {
    /// The channel is full but not closed.
    Full(T),
    /// The channel is closed.
    Closed(T),
}

/// The text under which `async_channel` displays a failed `try_send`.
pub open spec fn send_failure_text<T>(f: SendFailure<T>) -> Seq<char> {
    match f {
        SendFailure::Full(_) => "sending into a full channel"@,
        SendFailure::Closed(_) => "sending into a closed channel"@,
    }
}

impl<T> SendFailure<T> {
    /// The display text of the failure.
    pub fn text(&self) -> (s: String)
        ensures
            s@ == send_failure_text(*self),
    {
        match self {
            SendFailure::Full(_) => String::from_str("sending into a full channel"),
            SendFailure::Closed(_) => String::from_str("sending into a closed channel"),
        }
    }
}

/// What one call of `try_send` did: the sender it was made on, the message handed to it,
/// and, when the channel did not take the message, why. Only `try_send` makes one.
#[verifier::reject_recursive_types(T)]
pub struct SendRecord<T> {
    sender: Sender<T>,
    message: T,
    failure: Option<SendFailure<()>>,
}

impl<T> SendRecord<T> {
    /// The sender the message was handed to.
    pub closed spec fn sender(self) -> Sender<T> {
        self.sender
    }

    /// The message handed to the sender.
    pub closed spec fn message(self) -> T {
        self.message
    }

    /// Why the channel did not take the message, when it did not.
    pub closed spec fn failure(self) -> Option<SendFailure<()>> {
        self.failure
    }
}

/// The failure of a send, without the message it hands back.
pub open spec fn failure_kind<T>(r: Result<(), SendFailure<T>>) -> Option<SendFailure<()>> {
    match r {
        Ok(()) => None,
        Err(SendFailure::Full(_)) => Some(SendFailure::Full(())),
        Err(SendFailure::Closed(_)) => Some(SendFailure::Closed(())),
    }
}

/// Calls `Sender::try_send`. Whether the message is accepted depends on the state of the
/// channel, which nothing here states; on a failure the message comes back unchanged, in the
/// variant that tells a full channel from a closed one. The record that comes with the
/// outcome says on which sender the call was made, with which message, and how it ended;
/// it is ghost, so it exists for the proofs only and nothing of it runs.
#[verifier::external_body]
pub(crate) fn try_send<T>(tx: &Sender<T>, msg: T) -> (r: (Result<(), SendFailure<T>>, Ghost<SendRecord<T>>))
    ensures
        match r.0 {
            Ok(()) => true,
            Err(SendFailure::Full(m)) => m == msg,
            Err(SendFailure::Closed(m)) => m == msg,
        },
        r.1@.sender() == *tx && r.1@.message() == msg && r.1@.failure() == failure_kind(r.0),
{
    let outcome = match tx.try_send(msg) {
        Ok(()) => Ok(()),
        Err(TrySendError::Full(m)) => Err(SendFailure::Full(m)),
        Err(TrySendError::Closed(m)) => Err(SendFailure::Closed(m)),
    };
    (outcome, Ghost(arbitrary()))
}

/// What one call of `try_recv` did: the receiver it was made on and the message it took
/// out, if any. Only `try_recv` makes one.
#[verifier::reject_recursive_types(T)]
pub struct RecvRecord<T> {
    receiver: Receiver<T>,
    value: Option<T>,
}

impl<T> RecvRecord<T> {
    /// The receiver the call was made on.
    pub closed spec fn receiver(self) -> Receiver<T> {
        self.receiver
    }

    /// The message the call took out, if one was waiting.
    pub closed spec fn value(self) -> Option<T> {
        self.value
    }
}

/// Calls `Receiver::try_recv` and keeps the received message, if any. Whether a message is
/// waiting depends on the other end of the channel, which nothing here states. The record
/// that comes with the outcome says on which receiver the call was made and what it took
/// out; it is ghost, so it exists for the proofs only and nothing of it runs.
#[verifier::external_body]
pub(crate) fn try_recv<T>(rx: &Receiver<T>) -> (r: (Option<T>, Ghost<RecvRecord<T>>))
    ensures
        r.1@.receiver() == *rx && r.1@.value() == r.0,
{
    (rx.try_recv().ok(), Ghost(arbitrary()))
}

/// The two ends of one channel, as the function that created the channel handed them out.
/// Only `bounded_channel` and `unbounded_channel` make one.
#[verifier::reject_recursive_types(T)]
pub struct ChannelPair<T> {
    sender: Sender<T>,
    receiver: Receiver<T>,
    capacity: Option<usize>,
}

impl<T> ChannelPair<T> {
    /// The sending end.
    pub closed spec fn sender(self) -> Sender<T> {
        self.sender
    }

    /// The receiving end.
    pub closed spec fn receiver(self) -> Receiver<T> {
        self.receiver
    }

    /// How many messages the channel holds at most; `None` when it has no limit.
    pub closed spec fn capacity(self) -> Option<usize> {
        self.capacity
    }
}

/// Whether `tx` and `rx` are the two ends of one channel made here: what is sent on `tx`
/// goes into the channel that `rx` receives from.
pub open spec fn same_channel<T>(tx: Sender<T>, rx: Receiver<T>) -> bool {
    exists|p: ChannelPair<T>| #[trigger] p.sender() == tx && p.receiver() == rx
}

/// Whether `tx` and `rx` are the two ends of one channel made here without a capacity
/// limit: the channel never counts as full.
pub open spec fn unlimited_channel<T>(tx: Sender<T>, rx: Receiver<T>) -> bool {
    exists|p: ChannelPair<T>| #[trigger] p.sender() == tx && p.receiver() == rx && p.capacity() is None
}

/// Calls `async_channel::bounded`, which creates a channel that holds at most `cap` messages
/// and panics on a capacity of zero, which `requires` leaves out. The ghost pair that comes
/// with the two ends records that they belong to the one channel the call made, and that its
/// capacity is `cap` (what `Sender::capacity` reports for it).
#[verifier::external_body]
pub(crate) fn bounded_channel<T>(cap: usize) -> (r: (Sender<T>, Receiver<T>, Ghost<ChannelPair<T>>))
    requires
        cap > 0,
    ensures
        r.2@.sender() == r.0 && r.2@.receiver() == r.1,
        r.2@.capacity() == Some(cap),
{
    let (tx, rx) = async_channel::bounded(cap);
    (tx, rx, Ghost(arbitrary()))
}

/// Calls `async_channel::unbounded`, which creates a channel without a capacity limit. The
/// ghost pair that comes with the two ends records that they belong to the one channel the
/// call made, and that it has no capacity limit (`Sender::capacity` reports `None` for it).
#[verifier::external_body]
pub(crate) fn unbounded_channel<T>() -> (r: (Sender<T>, Receiver<T>, Ghost<ChannelPair<T>>))
    ensures
        r.2@.sender() == r.0 && r.2@.receiver() == r.1,
        r.2@.capacity() is None,
{
    let (tx, rx) = async_channel::unbounded();
    (tx, rx, Ghost(arbitrary()))
}

/// A sender and a receiver of one channel.
#[verifier::reject_recursive_types(T)]
pub struct AsyncChannel<T> {
    /// The sending end.
    pub sender: Sender<T>,
    /// The receiving end.
    pub receiver: Receiver<T>,
}

impl<T> AsyncChannel<T> {
    /// Creates the two ends of a new channel without a capacity limit.
    pub fn new() -> (c: Self)
        ensures
            same_channel(c.sender, c.receiver),
            unlimited_channel(c.sender, c.receiver),
    {
        let (sender, receiver, pair) = unbounded_channel();
        proof {
            assert(pair@.sender() == sender);
        }
        AsyncChannel { sender, receiver }
    }
}

} // verus!
