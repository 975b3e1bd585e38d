//! An unbounded channel of `u32` with any number of senders and receivers,
//! backed by crossbeam's channel.

use crate::tally::count_accepted;
use crossbeam::channel::{Receiver, RecvError, Sender};
use vstd::prelude::*;

verus! {

/// The sending end of crossbeam's channel, opaque to the verifier.
#[verifier::external_type_specification]
#[verifier::external_body]
#[verifier::reject_recursive_types(T)]
pub struct ExSender<T>(Sender<T>);

/// The receiving end of crossbeam's channel, opaque to the verifier.
#[verifier::external_type_specification]
#[verifier::external_body]
#[verifier::reject_recursive_types(T)]
pub struct ExReceiver<T>(Receiver<T>);

/// crossbeam's error for a receive on an empty channel without senders.
#[verifier::external_type_specification]
#[verifier::external_body]
pub struct ExRecvError(RecvError);

/// The channel is empty and every sender is gone: no message will ever
/// arrive.
#[derive(Clone, Copy, Debug, PartialEq, Eq)]
pub struct Closed;

/// `crossbeam::channel::unbounded`: the two ends of a new channel.
#[verifier::external_body]
fn channel_open() -> (Sender<u32>, Receiver<u32>) {
    crossbeam::channel::unbounded()
}

/// `Sender::clone`: one more sending handle on the same channel.
pub assume_specification<T>[ <Sender<T> as Clone>::clone ](tx: &Sender<T>) -> (twin: Sender<T>);

/// `Receiver::clone`: one more receiving handle on the same channel.
pub assume_specification<T>[ <Receiver<T> as Clone>::clone ](rx: &Receiver<T>) -> (twin: Receiver<T>);

/// `Sender::send`: the message is queued, or, where every receiver is gone,
/// the error carries the same message back. On an unbounded channel the
/// call does not wait.
#[verifier::external_body]
fn channel_send(tx: &Sender<u32>, item: u32) -> (r: Result<(), u32>)
    ensures
        r matches Err(back) ==> back == item,
{
    match tx.send(item) {
        Ok(()) => Ok(()),
        Err(refused) => Err(refused.into_inner()),
    }
}

/// `Receiver::recv`: waits until a message can be taken or the channel is
/// empty with every sender gone. Which of the two happens, and which
/// message comes, is up to the senders.
#[verifier::external_body]
fn channel_recv(rx: &Receiver<u32>) -> Result<u32, RecvError> {
    rx.recv()
}

/// What a receive answers, given whether the receiver had already seen the
/// channel closed and what the wait on the channel brought: a receiver that
/// has seen closure answers `Closed` whatever else; otherwise the message
/// that arrived, or `Closed` where none did.
pub open spec fn receive_answer(closed: bool, arrived: Option<u32>) -> Result<u32, Closed> {
    match arrived {
        Some(item) if !closed => Ok(item),
        _ => Err(Closed),
    }
}

/// Whether the receiver has seen the channel closed after a receive.
pub open spec fn closed_after(closed: bool, arrived: Option<u32>) -> bool {
    closed || arrived is None
}

/// The answer to a receive and whether the receiver has now seen closure.
pub struct Settled {
    pub answer: Result<u32, Closed>,
    pub closed: bool,
}

/// Decides a receive from what the wait on the channel brought.
pub fn settle(closed: bool, arrived: Option<u32>) -> (settled: Settled)
    ensures
        settled.answer == receive_answer(closed, arrived),
        settled.closed == closed_after(closed, arrived),
{
    match arrived {
        Some(item) => {
            if closed {
                Settled { answer: Err(Closed), closed: true }
            } else {
                Settled { answer: Ok(item), closed: false }
            }
        },
        None => Settled { answer: Err(Closed), closed: true },
    }
}

/// A consumer's count once one more receive has answered: one more where a
/// message came, and `None`, which ends the run, where the answer is
/// `Closed`.
pub open spec fn received_after(so_far: u64, answer: Result<u32, Closed>) -> Option<u64> {
    match answer {
        Ok(_) => Some((so_far + 1) as u64),
        Err(_) => None,
    }
}

/// Counts one answer of a consumer, which stops at the first `Closed`.
pub fn count_received(so_far: u64, answer: Result<u32, Closed>) -> (next: Option<u64>)
    requires
        so_far < u64::MAX,
    ensures
        next == received_after(so_far, answer),
{
    match answer {
        Ok(_) => Some(so_far + 1),
        Err(_) => None,
    }
}

/// Whether a receiver has seen closure after a run of receives that brought
/// `arrivals`, one entry for each receive.
pub open spec fn closed_after_all(closed: bool, arrivals: Seq<Option<u32>>) -> bool
    decreases arrivals.len(),
{
    if arrivals.len() == 0 {
        closed
    } else {
        closed_after(closed_after_all(closed, arrivals.drop_last()), arrivals.last())
    }
}

/// Closure is final: once a receive has answered `Closed`, the receiver has
/// seen closure, and every later receive answers `Closed` too, whatever the
/// channel would bring.
pub proof fn lemma_closure_is_final(
    closed: bool,
    arrivals: Seq<Option<u32>>,
    first: int,
    later: int,
)
    requires
        0 <= first <= later < arrivals.len(),
        receive_answer(closed_after_all(closed, arrivals.take(first)), arrivals[first]) is Err,
    ensures
        closed_after_all(closed, arrivals.take(later + 1)),
        later > first ==> closed_after_all(closed, arrivals.take(later)),
        later > first ==> receive_answer(
            closed_after_all(closed, arrivals.take(later)),
            arrivals[later],
        ) == Err::<u32, Closed>(Closed),
    decreases later - first,
{
    let upto = arrivals.take(later + 1);
    assert(upto.drop_last() =~= arrivals.take(later));
    assert(upto.last() == arrivals[later]);
    if later > first {
        lemma_closure_is_final(closed, arrivals, first, later - 1);
    }
}

/// A sending handle. The channel closes when the last clone is dropped.
#[derive(Clone)]
pub struct ChannelSender {
    inner: Sender<u32>,
}

/// A receiving handle. Once it has seen the channel closed it stays closed
/// and no longer waits on the channel.
#[derive(Clone)]
pub struct ChannelReceiver {
    inner: Receiver<u32>,
    closed: bool,
}

/// Opens a channel and returns its two ends.
pub fn channel() -> (ends: (ChannelSender, ChannelReceiver))
    ensures
        !ends.1.is_closed(),
{
    let (tx, rx) = channel_open();
    (ChannelSender { inner: tx }, ChannelReceiver { inner: rx, closed: false })
}

impl ChannelSender {
    /// Queues `item` without waiting. Fails, handing the item back, only
    /// where every receiver has been dropped.
    pub fn send(&self, item: u32) -> (r: Result<(), u32>)
        ensures
            r matches Err(back) ==> back == item,
    {
        channel_send(&self.inner, item)
    }

    /// Sends `item` up to `times` times and stops at the first send that
    /// fails. Returns how many sends went through.
    pub fn produce(&self, item: u32, times: usize) -> (sent: usize)
        ensures
            sent <= times,
    {
        let mut sent: usize = 0;
        while sent < times
            invariant
                sent <= times,
            decreases times - sent,
        {
            match count_accepted(sent, self.send(item)) {
                Some(next) => {
                    sent = next;
                },
                None => {
                    return sent;
                },
            }
        }
        sent
    }
}

impl ChannelReceiver {
    /// Whether this receiver has seen the channel closed.
    pub closed spec fn spec_is_closed(&self) -> bool {
        self.closed
    }

    /// Whether this receiver has seen the channel closed.
    #[verifier::when_used_as_spec(spec_is_closed)]
    pub fn is_closed(&self) -> (b: bool)
        ensures
            b == self.is_closed(),
    {
        self.closed
    }

    /// Takes the next message, waiting for one while the channel is empty
    /// and a sender is left. Answers `Closed` once the channel is empty and
    /// every sender is gone, and from then on without waiting.
    pub fn receive(&mut self) -> (r: Result<u32, Closed>)
        ensures
            old(self).is_closed() ==> r == Err::<u32, Closed>(Closed),
            final(self).is_closed() == (r is Err),
            exists|arrived: Option<u32>|
                r == #[trigger] receive_answer(old(self).is_closed(), arrived)
                    && final(self).is_closed() == closed_after(old(self).is_closed(), arrived),
    {
        let arrived: Option<u32> = if self.closed {
            None
        } else {
            match channel_recv(&self.inner) {
                Ok(item) => Some(item),
                Err(_) => None,
            }
        };
        let settled = settle(self.closed, arrived);
        self.closed = settled.closed;
        assert(settled.answer == receive_answer(old(self).is_closed(), arrived));
        settled.answer
    }

    /// Receives until the channel is closed or `limit` messages have come,
    /// and returns how many came. It stops short of `limit` only on the
    /// answer `Closed`, which it does not count; where it does not stop short,
    /// no receive of this run has answered `Closed`.
    pub fn consume(&mut self, limit: u64) -> (received: u64)
        ensures
            received <= limit,
            final(self).is_closed() == (old(self).is_closed() || received < limit),
            old(self).is_closed() ==> received == 0,
    {
        let mut received: u64 = 0;
        while received < limit
            invariant
                received <= limit,
                self.is_closed() == old(self).is_closed(),
                old(self).is_closed() ==> received == 0,
            decreases limit - received,
        {
            match count_received(received, self.receive()) {
                Some(next) => {
                    received = next;
                },
                None => {
                    return received;
                },
            }
        }
        received
    }

    /// One more receiving handle on the same channel. It has seen the
    /// channel closed exactly if this one has.
    pub fn fork(&self) -> (twin: ChannelReceiver)
        ensures
            twin.is_closed() == self.is_closed(),
    {
        ChannelReceiver { inner: self.inner.clone(), closed: self.closed }
    }
}

} // verus!
