//! The tokio channel types through which responses and envelopes are handed
//! to waiting tasks, and the calls the library makes on them.
//!
//! Each call returns a record of what was handed to which channel half; only
//! this module can make such records. Whether a hand-off succeeds depends on
//! whether the receiving side is still alive, which only the running program
//! knows: the records claim nothing about that outcome.

use vstd::prelude::*;

verus! {

/// `tokio::sync::oneshot::Sender`: the sending half of a one-value channel.
#[verifier::external_type_specification]
#[verifier::external_body]
#[verifier::reject_recursive_types(T)]
pub struct ExOneshotSender<T>(tokio::sync::oneshot::Sender<T>);

/// `tokio::sync::oneshot::Receiver`: the receiving half of a one-value channel.
#[verifier::external_type_specification]
#[verifier::external_body]
#[verifier::reject_recursive_types(T)]
pub struct ExOneshotReceiver<T>(tokio::sync::oneshot::Receiver<T>);

/// `tokio::sync::oneshot::error::RecvError`: what a receiver yields when its
/// sender was dropped; declared because the receiver type mentions it.
#[verifier::external_type_specification]
#[verifier::external_body]
pub struct ExOneshotRecvError(tokio::sync::oneshot::error::RecvError);

/// `tokio::sync::mpsc::Sender`: the sending half of a bounded queue.
#[verifier::external_type_specification]
#[verifier::external_body]
#[verifier::reject_recursive_types(T)]
pub struct ExMpscSender<T>(tokio::sync::mpsc::Sender<T>);

/// Evidence that a sender and a receiver are the two halves of one oneshot
/// channel. Only `open_oneshot` makes one.
#[verifier::reject_recursive_types(T)]
pub struct OneshotLink<T> {
    sender: Ghost<tokio::sync::oneshot::Sender<T>>,
    receiver: Ghost<tokio::sync::oneshot::Receiver<T>>,
}

impl<T> OneshotLink<T> {
    /// The sending half of the channel.
    pub closed spec fn sender(&self) -> tokio::sync::oneshot::Sender<T> {
        self.sender@
    }

    /// The receiving half of the channel.
    pub closed spec fn receiver(&self) -> tokio::sync::oneshot::Receiver<T> {
        self.receiver@
    }
}

/// Evidence of one call of `oneshot::Sender::send`: the sender it was made
/// on, the value handed to it, and whether it returned `Ok`. Only
/// `oneshot_send` makes one.
#[verifier::reject_recursive_types(T)]
pub struct OneshotSendRecord<T> {
    sender: Ghost<tokio::sync::oneshot::Sender<T>>,
    value: Ghost<T>,
    accepted: bool,
}

impl<T> OneshotSendRecord<T> {
    /// The sender the value was handed to.
    pub closed spec fn sender(&self) -> tokio::sync::oneshot::Sender<T> {
        self.sender@
    }

    /// The value handed over.
    pub closed spec fn value(&self) -> T {
        self.value@
    }

    /// Whether the send returned `Ok` (the receiver was still alive).
    pub closed spec fn was_accepted(&self) -> bool {
        self.accepted
    }

    /// Whether the send returned `Ok`.
    pub fn accepted(&self) -> (r: bool)
        ensures
            r == self.was_accepted(),
    {
        self.accepted
    }
}

/// Evidence of one call of `mpsc::Sender::try_send`: the sender it was made
/// on, the value handed to it, and whether it returned `Ok`. Only a call
/// through a `TrySendLog` makes one.
#[verifier::reject_recursive_types(T)]
pub struct TrySendRecord<T> {
    sender: Ghost<tokio::sync::mpsc::Sender<T>>,
    value: Ghost<T>,
    accepted: bool,
}

impl<T> TrySendRecord<T> {
    /// The sender the value was handed to.
    pub closed spec fn sender(&self) -> tokio::sync::mpsc::Sender<T> {
        self.sender@
    }

    /// The value handed over.
    pub closed spec fn value(&self) -> T {
        self.value@
    }

    /// Whether `try_send` returned `Ok` (the value was queued).
    pub closed spec fn was_accepted(&self) -> bool {
        self.accepted
    }

    /// Whether `try_send` returned `Ok`.
    pub fn accepted(&self) -> (r: bool)
        ensures
            r == self.was_accepted(),
    {
        self.accepted
    }
}

/// Calls `tokio::sync::oneshot::channel`: a fresh sender/receiver pair, with
/// the link that records that they are the two halves of that channel.
#[verifier::external_body]
pub(crate) fn open_oneshot<T>() -> (r: (
    tokio::sync::oneshot::Sender<T>,
    tokio::sync::oneshot::Receiver<T>,
    OneshotLink<T>,
))
    ensures
        r.2.sender() == r.0,
        r.2.receiver() == r.1,
{
    let (tx, rx) = tokio::sync::oneshot::channel();
    let ghost s = tx;
    let ghost v = rx;
    (tx, rx, OneshotLink { sender: Ghost(s), receiver: Ghost(v) })
}

/// Calls `tokio::sync::oneshot::Sender::send` with `value` on `tx`; the
/// record holds that sender and value and whether the call returned `Ok`
/// (it fails when the receiver has been dropped). Which outcome occurs is
/// not claimed.
#[verifier::external_body]
pub(crate) fn oneshot_send<T>(tx: tokio::sync::oneshot::Sender<T>, value: T) -> (r:
    OneshotSendRecord<T>)
    ensures
        r.sender() == tx,
        r.value() == value,
{
    let ghost s = tx;
    let ghost v = value;
    let accepted = tx.send(value).is_ok();
    OneshotSendRecord { sender: Ghost(s), value: Ghost(v), accepted }
}

/// Calls `tokio::sync::mpsc::Sender::try_send` with `value` on `tx`; the
/// record holds that sender and value and whether the call returned `Ok`
/// (it fails when the queue is full or the receiver is gone). Which outcome
/// occurs is not claimed. Reached only through `TrySendLog::try_send`, so
/// every such call is logged.
#[verifier::external_body]
fn mpsc_try_send<T>(tx: &tokio::sync::mpsc::Sender<T>, value: T) -> (r: TrySendRecord<T>)
    ensures
        r.sender() == *tx,
        r.value() == value,
{
    let ghost s = *tx;
    let ghost v = value;
    let accepted = tx.try_send(value).is_ok();
    TrySendRecord { sender: Ghost(s), value: Ghost(v), accepted }
}

/// A log of `try_send` calls, oldest first. The only way the library makes
/// such a call is `try_send` on a log, which appends the call's record; only
/// this module can change the log.
#[verifier::reject_recursive_types(T)]
pub struct TrySendLog<T> {
    records: Ghost<Seq<TrySendRecord<T>>>,
}

impl<T> TrySendLog<T> {
    /// The calls made through this log, oldest first.
    pub closed spec fn records(&self) -> Seq<TrySendRecord<T>> {
        self.records@
    }

    /// An empty log.
    pub fn new() -> (r: Self)
        ensures
            r.records() == Seq::<TrySendRecord<T>>::empty(),
    {
        TrySendLog { records: Ghost(Seq::empty()) }
    }

    /// Hands `value` to `tx` without waiting and logs the call. Returns
    /// whether it was accepted.
    pub fn try_send(&mut self, tx: &tokio::sync::mpsc::Sender<T>, value: T) -> (r: bool)
        ensures
            final(self).records().len() == old(self).records().len() + 1,
            final(self).records().drop_last() == old(self).records(),
            final(self).records().last().sender() == *tx,
            final(self).records().last().value() == value,
            r == final(self).records().last().was_accepted(),
    {
        let record = mpsc_try_send(tx, value);
        let r = record.accepted();
        proof {
            self.records@ = self.records@.push(record);
            assert(self.records@.drop_last() =~= old(self).records());
        }
        r
    }
}

} // verus!
