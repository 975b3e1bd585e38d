//! A bounded first-in first-out queue of `u32`, backed by crossbeam's
//! `ArrayQueue`.

use crate::tally::{count_accepted, count_taken};
use crossbeam::queue::ArrayQueue;
use std::sync::Arc;
use vstd::prelude::*;

verus! {

/// crossbeam's bounded queue, opaque to the verifier.
#[verifier::external_type_specification]
#[verifier::external_body]
#[verifier::reject_recursive_types(T)]
pub struct ExArrayQueue<T>(ArrayQueue<T>);

/// The elements a queue holds, oldest first, while it has a single owner.
/// Of a queue behind a shared handle it is what the queue held at the moment
/// it became shared.
pub uninterp spec fn queue_items(q: ArrayQueue<u32>) -> Seq<u32>;

/// The capacity a queue was created with.
pub uninterp spec fn queue_capacity(q: ArrayQueue<u32>) -> nat;

/// Bytes one slot of the ring buffer occupies at most: a 64-bit stamp and
/// the element, padded to the stamp's alignment.
pub const SLOT_BYTES: usize = 16;

/// Whether a ring buffer of `capacity` slots can be asked for: it has at
/// least one slot and spans no more bytes than an allocation may.
pub open spec fn capacity_fits(capacity: usize) -> bool {
    0 < capacity && capacity * SLOT_BYTES <= isize::MAX
}

/// Whether a queue holding `items` has room for one more.
pub open spec fn has_room(items: Seq<u32>, capacity: nat) -> bool {
    items.len() < capacity
}

/// The contents after a push of `item`: appended where there is room,
/// unchanged where there is none.
pub open spec fn after_push(items: Seq<u32>, capacity: nat, item: u32) -> Seq<u32> {
    if has_room(items, capacity) {
        items.push(item)
    } else {
        items
    }
}

/// What a push of `item` answers: the item comes back where there is no room.
pub open spec fn push_answer(items: Seq<u32>, capacity: nat, item: u32) -> Result<(), u32> {
    if has_room(items, capacity) {
        Ok(())
    } else {
        Err(item)
    }
}

/// The contents after a pop: without the oldest element, if there is one.
pub open spec fn after_pop(items: Seq<u32>) -> Seq<u32> {
    if items.len() == 0 {
        items
    } else {
        items.drop_first()
    }
}

/// What a pop answers: the oldest element, if there is one.
pub open spec fn pop_answer(items: Seq<u32>) -> Option<u32> {
    if items.len() == 0 {
        None
    } else {
        Some(items[0])
    }
}

/// `ArrayQueue::new`: an empty queue of the given capacity. It panics on a
/// capacity of zero and on one whose buffer cannot be laid out, so both are
/// left out.
#[verifier::external_body]
fn queue_new(capacity: usize) -> (q: ArrayQueue<u32>)
    requires
        capacity_fits(capacity),
    ensures
        queue_items(q) == Seq::<u32>::empty(),
        queue_capacity(q) == capacity,
{
    ArrayQueue::new(capacity)
}

/// `ArrayQueue::push_mut`, the push for an exclusive holder: a queue that
/// is not full takes the element at its tail; a full one is left as it was
/// and hands the element back. It has no panicking path.
#[verifier::external_body]
fn queue_push_mut(q: &mut ArrayQueue<u32>, item: u32) -> (r: Result<(), u32>)
    ensures
        queue_capacity(*final(q)) == queue_capacity(*old(q)),
        queue_items(*final(q)) == after_push(queue_items(*old(q)), queue_capacity(*old(q)), item),
        r == push_answer(queue_items(*old(q)), queue_capacity(*old(q)), item),
    no_unwind
{
    q.push_mut(item)
}

/// `ArrayQueue::pop_mut`, the pop for an exclusive holder: a queue that is
/// not empty gives up the element at its head; an empty one answers `None`.
/// It has no panicking path.
#[verifier::external_body]
fn queue_pop_mut(q: &mut ArrayQueue<u32>) -> (r: Option<u32>)
    ensures
        queue_capacity(*final(q)) == queue_capacity(*old(q)),
        queue_items(*final(q)) == after_pop(queue_items(*old(q))),
        r == pop_answer(queue_items(*old(q))),
    no_unwind
{
    q.pop_mut()
}

/// `ArrayQueue::len` on the queue of a single owner, which nobody can change
/// while it is borrowed: the number of elements it holds.
#[verifier::external_body]
fn queue_len(q: &BoundedQueue) -> (n: usize)
    ensures
        n == queue_items(q.inner).len(),
{
    q.inner.len()
}

/// `ArrayQueue::capacity`: the capacity given at creation.
#[verifier::external_body]
fn queue_capacity_of(q: &ArrayQueue<u32>) -> (n: usize)
    ensures
        n == queue_capacity(*q),
{
    q.capacity()
}

/// A bounded queue with a single owner.
///
/// Every operation is one indivisible step on the contents, which the view
/// gives oldest first.
pub struct BoundedQueue {
    inner: ArrayQueue<u32>,
}

impl View for BoundedQueue {
    type V = Seq<u32>;

    closed spec fn view(&self) -> Seq<u32> {
        queue_items(self.inner)
    }
}

impl BoundedQueue {
    #[verifier::type_invariant]
    closed spec fn within_capacity(&self) -> bool {
        &&& 0 < queue_capacity(self.inner) <= usize::MAX
        &&& queue_items(self.inner).len() <= queue_capacity(self.inner)
    }

    /// The capacity the queue was created with.
    pub closed spec fn spec_capacity(&self) -> nat {
        queue_capacity(self.inner)
    }

    /// An empty queue with room for `capacity` elements.
    pub fn new(capacity: usize) -> (q: Self)
        requires
            capacity_fits(capacity),
        ensures
            q@ == Seq::<u32>::empty(),
            q.spec_capacity() == capacity,
    {
        BoundedQueue { inner: queue_new(capacity) }
    }

    /// An empty queue with room for `capacity` elements, or `None` where no
    /// ring buffer of that many slots can be asked for.
    pub fn try_new(capacity: usize) -> (made: Option<Self>)
        ensures
            made is Some == capacity_fits(capacity),
            made matches Some(q) ==> q@ == Seq::<u32>::empty() && q.spec_capacity() == capacity,
    {
        if 0 < capacity && capacity <= (isize::MAX as usize) / SLOT_BYTES {
            Some(BoundedQueue::new(capacity))
        } else {
            None
        }
    }

    /// The capacity the queue was created with.
    pub fn capacity(&self) -> (n: usize)
        ensures
            n == self.spec_capacity(),
            0 < n,
            self@.len() <= n,
    {
        proof {
            use_type_invariant(self);
        }
        queue_capacity_of(&self.inner)
    }

    /// The number of elements held.
    pub fn len(&self) -> (n: usize)
        ensures
            n == self@.len(),
            n <= self.spec_capacity(),
    {
        proof {
            use_type_invariant(self);
        }
        queue_len(self)
    }

    /// Appends `item` if there is room, and hands it back if there is none.
    pub fn push(&mut self, item: u32) -> (r: Result<(), u32>)
        ensures
            final(self).spec_capacity() == old(self).spec_capacity(),
            final(self)@ == after_push(old(self)@, old(self).spec_capacity(), item),
            r == push_answer(old(self)@, old(self).spec_capacity(), item),
    {
        proof {
            use_type_invariant(&*self);
        }
        queue_push_mut(&mut self.inner, item)
    }

    /// Removes and returns the oldest element, if there is one.
    pub fn pop(&mut self) -> (r: Option<u32>)
        ensures
            final(self).spec_capacity() == old(self).spec_capacity(),
            final(self)@ == after_pop(old(self)@),
            r == pop_answer(old(self)@),
    {
        proof {
            use_type_invariant(&*self);
        }
        queue_pop_mut(&mut self.inner)
    }

    /// Whether the queue holds nothing.
    pub fn is_empty(&self) -> (b: bool)
        ensures
            b == (self@.len() == 0),
    {
        self.len() == 0
    }

    /// Whether the queue holds as many elements as it has room for.
    pub fn is_full(&self) -> (b: bool)
        ensures
            b == !has_room(self@, self.spec_capacity()),
    {
        self.len() == self.capacity()
    }

    /// Pushes `item` up to `times` times and stops at the first push that is
    /// turned away. Returns how many pushes were taken: all of them where
    /// the free room allows, else as many as there was room for.
    pub fn produce(&mut self, item: u32, times: usize) -> (accepted: usize)
        ensures
            final(self).spec_capacity() == old(self).spec_capacity(),
            accepted == times || accepted == old(self).spec_capacity() - old(self)@.len(),
            accepted <= times,
            accepted <= old(self).spec_capacity() - old(self)@.len(),
            final(self)@ == old(self)@ + Seq::new(accepted as nat, |i: int| item),
    {
        let mut accepted: usize = 0;
        proof {
            use_type_invariant(&*self);
            assert(self@ =~= old(self)@ + Seq::new(0nat, |i: int| item));
        }
        while accepted < times
            invariant
                accepted <= times,
                self.spec_capacity() == old(self).spec_capacity(),
                old(self)@.len() + accepted <= old(self).spec_capacity(),
                self@ == old(self)@ + Seq::new(accepted as nat, |i: int| item),
            decreases times - accepted,
        {
            match self.push(item) {
                Ok(()) => {
                    proof {
                        use_type_invariant(&*self);
                        assert(self@ =~= old(self)@ + Seq::new((accepted + 1) as nat, |i: int| item));
                    }
                    accepted = accepted + 1;
                },
                Err(_) => {
                    return accepted;
                },
            }
        }
        accepted
    }

    /// Pops `times` times and returns how many pops gave an element: the
    /// oldest `times` elements leave, or all of them where there are fewer.
    pub fn consume(&mut self, times: usize) -> (taken: usize)
        ensures
            final(self).spec_capacity() == old(self).spec_capacity(),
            taken == times || taken == old(self)@.len(),
            taken <= times,
            taken <= old(self)@.len(),
            final(self)@ == old(self)@.skip(taken as int),
    {
        let mut taken: usize = 0;
        let mut tried: usize = 0;
        proof {
            assert(self@ =~= old(self)@.skip(0));
        }
        while tried < times
            invariant
                tried <= times,
                taken <= tried,
                taken <= old(self)@.len(),
                taken < tried ==> taken == old(self)@.len(),
                self.spec_capacity() == old(self).spec_capacity(),
                self@ == old(self)@.skip(taken as int),
            decreases times - tried,
        {
            match self.pop() {
                Some(_) => {
                    proof {
                        assert(self@ =~= old(self)@.skip(taken + 1));
                    }
                    taken = taken + 1;
                },
                None => {},
            }
            tried = tried + 1;
        }
        taken
    }
}

/// One step of a history: a push of a value, or a pop.
pub enum QueueOp {
    Push(u32),
    Pop,
}

/// What a history has done to a queue: what it holds now, and, in the order
/// in which it happened, every value a push got in and every value a pop
/// got out.
pub struct Ledger {
    pub items: Seq<u32>,
    pub pushed: Seq<u32>,
    pub popped: Seq<u32>,
}

/// The ledger after one more step.
pub open spec fn ledger_step(before: Ledger, capacity: nat, op: QueueOp) -> Ledger {
    match op {
        QueueOp::Push(item) => Ledger {
            items: after_push(before.items, capacity, item),
            pushed: if has_room(before.items, capacity) {
                before.pushed.push(item)
            } else {
                before.pushed
            },
            popped: before.popped,
        },
        QueueOp::Pop => Ledger {
            items: after_pop(before.items),
            pushed: before.pushed,
            popped: match pop_answer(before.items) {
                Some(item) => before.popped.push(item),
                None => before.popped,
            },
        },
    }
}

/// The ledger of a queue of the given capacity that starts out holding
/// `start` and then goes through `ops`, however the workers' pushes and
/// pops were interleaved to give that order.
pub open spec fn replay(start: Seq<u32>, capacity: nat, ops: Seq<QueueOp>) -> Ledger
    decreases ops.len(),
{
    if ops.len() == 0 {
        Ledger { items: start, pushed: Seq::empty(), popped: Seq::empty() }
    } else {
        ledger_step(replay(start, capacity, ops.drop_last()), capacity, ops.last())
    }
}

/// Nothing is lost and nothing is made up: at every point of every history,
/// what the queue held at the start followed by what was pushed is what was
/// popped followed by what the queue holds. The queue never holds more than
/// its capacity.
pub proof fn lemma_conservation(start: Seq<u32>, capacity: nat, ops: Seq<QueueOp>)
    requires
        start.len() <= capacity,
    ensures
        start + replay(start, capacity, ops).pushed == replay(start, capacity, ops).popped
            + replay(start, capacity, ops).items,
        replay(start, capacity, ops).items.len() <= capacity,
    decreases ops.len(),
{
    let now = replay(start, capacity, ops);
    if ops.len() == 0 {
        assert(start + now.pushed =~= now.popped + now.items);
    } else {
        lemma_conservation(start, capacity, ops.drop_last());
        let before = replay(start, capacity, ops.drop_last());
        assert(now == ledger_step(before, capacity, ops.last()));
        assert(start + before.pushed == before.popped + before.items);
        match ops.last() {
            QueueOp::Push(item) => {
                if has_room(before.items, capacity) {
                    assert(start + now.pushed =~= (start + before.pushed).push(item));
                    assert(now.popped + now.items =~= (before.popped + before.items).push(item));
                }
            },
            QueueOp::Pop => {
                if before.items.len() > 0 {
                    assert(now.popped + now.items =~= before.popped + before.items);
                }
            },
        }
    }
}

/// The values that the pushes of a history offer, in order, whether the
/// queue takes them or not.
pub open spec fn offered(ops: Seq<QueueOp>) -> Seq<u32>
    decreases ops.len(),
{
    if ops.len() == 0 {
        Seq::empty()
    } else {
        match ops.last() {
            QueueOp::Push(item) => offered(ops.drop_last()).push(item),
            QueueOp::Pop => offered(ops.drop_last()),
        }
    }
}

/// No push is refused while there is room for all: where what the queue
/// starts with and everything a history offers fit within the capacity
/// together, every push of the history is taken, however the pops fall.
pub proof fn lemma_room_for_all(start: Seq<u32>, capacity: nat, ops: Seq<QueueOp>)
    requires
        start.len() + offered(ops).len() <= capacity,
    ensures
        replay(start, capacity, ops).pushed == offered(ops),
    decreases ops.len(),
{
    if ops.len() > 0 {
        let earlier = ops.drop_last();
        let before = replay(start, capacity, earlier);
        assert(offered(earlier).len() <= offered(ops).len());
        lemma_room_for_all(start, capacity, earlier);
        lemma_conservation(start, capacity, earlier);
        assert((start + before.pushed).len() == (before.popped + before.items).len());
        assert(before.items.len() <= start.len() + offered(earlier).len());
        match ops.last() {
            QueueOp::Push(item) => {
                assert(has_room(before.items, capacity));
            },
            QueueOp::Pop => {},
        }
    }
}

/// On a queue that starts empty, pops never get ahead of pushes: there are
/// never more values popped than pushed, the values popped are the first
/// values pushed in the order of their pushes, and no value has come out
/// more often than it went in.
pub proof fn lemma_pops_within_pushes(capacity: nat, ops: Seq<QueueOp>)
    ensures
        replay(Seq::empty(), capacity, ops).popped.len() <= replay(
            Seq::empty(),
            capacity,
            ops,
        ).pushed.len(),
        replay(Seq::empty(), capacity, ops).popped == replay(Seq::empty(), capacity, ops).pushed.take(
            replay(Seq::empty(), capacity, ops).popped.len() as int,
        ),
        replay(Seq::empty(), capacity, ops).items.len() == replay(
            Seq::empty(),
            capacity,
            ops,
        ).pushed.len() - replay(Seq::empty(), capacity, ops).popped.len(),
        forall|value: u32|
            replay(Seq::empty(), capacity, ops).popped.to_multiset().count(value) <= replay(
                Seq::empty(),
                capacity,
                ops,
            ).pushed.to_multiset().count(value),
{
    let now = replay(Seq::empty(), capacity, ops);
    lemma_conservation(Seq::empty(), capacity, ops);
    assert(Seq::<u32>::empty() + now.pushed =~= now.pushed);
    assert(now.pushed == now.popped + now.items);
    assert(now.pushed.len() == now.popped.len() + now.items.len());
    assert(now.popped =~= now.pushed.take(now.popped.len() as int));
    vstd::seq_lib::lemma_multiset_commutative(now.popped, now.items);
}

/// A shared handle to a bounded queue.
///
/// Any number of clones may push and pop at once. What one call observes
/// depends on what the other holders do around it, so the contracts promise
/// only what holds of every interleaving.
#[derive(Clone)]
pub struct SharedQueue {
    inner: Arc<ArrayQueue<u32>>,
}

/// `ArrayQueue::push` through a shared handle: the element is taken, or the
/// queue was full at that moment and hands the same element back.
#[verifier::external_body]
fn shared_push(q: &Arc<ArrayQueue<u32>>, item: u32) -> (r: Result<(), u32>)
    ensures
        r matches Err(back) ==> back == item,
{
    q.push(item)
}

/// `ArrayQueue::pop` through a shared handle: some element, or `None` where
/// the queue was empty at that moment.
#[verifier::external_body]
fn shared_pop(q: &Arc<ArrayQueue<u32>>) -> Option<u32> {
    q.pop()
}

/// `ArrayQueue::len` through a shared handle: the length at some moment
/// during the call, which is never above the capacity.
#[verifier::external_body]
fn shared_len(q: &Arc<ArrayQueue<u32>>) -> (n: usize)
    ensures
        n <= queue_capacity(**q),
{
    q.len()
}

impl BoundedQueue {
    /// Gives up exclusive ownership: the queue, with what it holds, becomes
    /// reachable through a handle that can be cloned.
    pub fn into_shared(self) -> (shared: SharedQueue)
        ensures
            shared.spec_capacity() == self.spec_capacity(),
            shared.initial() == self@,
    {
        SharedQueue { inner: Arc::new(self.inner) }
    }
}

impl SharedQueue {
    /// The capacity the queue was created with.
    pub closed spec fn spec_capacity(&self) -> nat {
        queue_capacity(*self.inner)
    }

    /// What the queue held, oldest first, when it became shared. What it
    /// holds later is up to its holders.
    pub closed spec fn initial(&self) -> Seq<u32> {
        queue_items(*self.inner)
    }

    /// The capacity the queue was created with.
    pub fn capacity(&self) -> (n: usize)
        ensures
            n == self.spec_capacity(),
    {
        queue_capacity_of(&*self.inner)
    }

    /// The number of elements held at some moment during the call.
    pub fn len(&self) -> (n: usize)
        ensures
            n <= self.spec_capacity(),
    {
        shared_len(&self.inner)
    }

    /// Tries to append `item`; where the queue is full at that moment, the
    /// item comes back. Never blocks.
    pub fn push(&self, item: u32) -> (r: Result<(), u32>)
        ensures
            r matches Err(back) ==> back == item,
    {
        shared_push(&self.inner, item)
    }

    /// Takes the oldest element available at that moment, if any. Never
    /// blocks.
    pub fn pop(&self) -> Option<u32> {
        shared_pop(&self.inner)
    }

    /// Pushes `item` up to `times` times and stops at the first push that is
    /// turned away. Returns how many pushes were taken.
    pub fn produce(&self, item: u32, times: usize) -> (accepted: usize)
        ensures
            accepted <= times,
    {
        let mut accepted: usize = 0;
        while accepted < times
            invariant
                accepted <= times,
            decreases times - accepted,
        {
            match count_accepted(accepted, self.push(item)) {
                Some(next) => {
                    accepted = next;
                },
                None => {
                    return accepted;
                },
            }
        }
        accepted
    }

    /// Pops `times` times and returns how many pops gave an element.
    pub fn consume(&self, times: usize) -> (taken: usize)
        ensures
            taken <= times,
    {
        let mut taken: usize = 0;
        let mut tried: usize = 0;
        while tried < times
            invariant
                taken <= tried <= times,
            decreases times - tried,
        {
            taken = count_taken(taken, self.pop());
            tried = tried + 1;
        }
        taken
    }
}

} // verus!
