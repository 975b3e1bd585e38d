//! A single `u32` that is read, written and incremented in indivisible
//! steps, backed by crossbeam's `AtomicCell`.

use crossbeam::atomic::AtomicCell;
use std::sync::Arc;
use vstd::prelude::*;

verus! {

/// crossbeam's atomic cell, opaque to the verifier.
#[verifier::external_type_specification]
#[verifier::external_body]
#[verifier::reject_recursive_types(T)]
pub struct ExAtomicCell<T>(AtomicCell<T>);

/// The value a cell holds while it has a single owner. Of a cell behind a
/// shared handle it is the value from the moment the cell became shared.
pub uninterp spec fn cell_value(c: AtomicCell<u32>) -> u32;

/// The value after an increment by `delta`, which wraps round at `2^32`.
pub open spec fn wrapped_sum(value: u32, delta: u32) -> u32 {
    if value + delta <= u32::MAX {
        (value + delta) as u32
    } else {
        (value + delta - 0x1_0000_0000) as u32
    }
}

/// `AtomicCell::new`: a cell that holds `value`.
#[verifier::external_body]
fn cell_new(value: u32) -> (c: AtomicCell<u32>)
    ensures
        cell_value(c) == value,
{
    AtomicCell::new(value)
}

/// `AtomicCell::load` on the cell of a single owner, which nobody can change
/// while it is borrowed: the value held.
#[verifier::external_body]
fn cell_load(c: &AtomicScalar) -> (value: u32)
    ensures
        value == cell_value(c.inner),
{
    c.inner.load()
}

/// `AtomicCell::store` by an exclusive holder: the cell then holds `value`.
#[verifier::external_body]
fn cell_store(c: &mut AtomicCell<u32>, value: u32)
    ensures
        cell_value(*final(c)) == value,
{
    c.store(value)
}

/// `AtomicCell::fetch_add` by an exclusive holder: the cell's value grows by
/// `delta`, wrapping on overflow, and the value before is returned.
#[verifier::external_body]
fn cell_fetch_add(c: &mut AtomicCell<u32>, delta: u32) -> (previous: u32)
    ensures
        previous == cell_value(*old(c)),
        cell_value(*final(c)) == wrapped_sum(cell_value(*old(c)), delta),
{
    c.fetch_add(delta)
}

/// An atomic scalar with a single owner.
///
/// Every operation is one indivisible step on the value, which the view
/// gives.
pub struct AtomicScalar {
    inner: AtomicCell<u32>,
}

impl View for AtomicScalar {
    type V = u32;

    closed spec fn view(&self) -> u32 {
        cell_value(self.inner)
    }
}

impl AtomicScalar {
    /// A scalar that holds `value`.
    pub fn new(value: u32) -> (scalar: Self)
        ensures
            scalar@ == value,
    {
        AtomicScalar { inner: cell_new(value) }
    }

    /// The value held.
    pub fn load(&self) -> (value: u32)
        ensures
            value == self@,
            self@ == value_step(self@, ScalarOp::Load),
    {
        cell_load(self)
    }

    /// Replaces the value held by `value`.
    pub fn store(&mut self, value: u32)
        ensures
            final(self)@ == value,
            final(self)@ == value_step(old(self)@, ScalarOp::Store(value)),
    {
        cell_store(&mut self.inner, value)
    }

    /// Adds `delta` to the value held, wrapping on overflow, and returns the
    /// value from before.
    pub fn fetch_add(&mut self, delta: u32) -> (previous: u32)
        ensures
            previous == old(self)@,
            final(self)@ == wrapped_sum(old(self)@, delta),
            final(self)@ == value_step(old(self)@, ScalarOp::FetchAdd(delta)),
    {
        cell_fetch_add(&mut self.inner, delta)
    }

    /// What one worker does to the scalar: it adds one if `bump` is set, and
    /// then reads the value.
    pub fn touch(&mut self, bump: bool) -> (seen: u32)
        ensures
            final(self)@ == seen,
            seen == if bump {
                wrapped_sum(old(self)@, 1)
            } else {
                old(self)@
            },
    {
        if bump {
            self.fetch_add(1);
        }
        self.load()
    }

    /// Gives up exclusive ownership: the scalar, with its value, becomes
    /// reachable through a handle that can be cloned.
    pub fn into_shared(self) -> (shared: SharedScalar)
        ensures
            shared.initial() == self@,
    {
        SharedScalar { inner: Arc::new(self.inner) }
    }
}

/// One step of a history of a scalar.
pub enum ScalarOp {
    Load,
    Store(u32),
    FetchAdd(u32),
}

impl ScalarOp {
    /// Whether the step leaves every value as it was.
    pub open spec fn reads_only(self) -> bool {
        self is Load
    }
}

/// The value after one more step.
pub open spec fn value_step(before: u32, op: ScalarOp) -> u32 {
    match op {
        ScalarOp::Load => before,
        ScalarOp::Store(value) => value,
        ScalarOp::FetchAdd(delta) => wrapped_sum(before, delta),
    }
}

/// The value of a scalar that starts out at `start` and then goes through
/// `ops`, however the workers' steps were interleaved to give that order.
pub open spec fn value_after(start: u32, ops: Seq<ScalarOp>) -> u32
    decreases ops.len(),
{
    if ops.len() == 0 {
        start
    } else {
        value_step(value_after(start, ops.drop_last()), ops.last())
    }
}

/// What the step at position `at` of a history answers: a load the value
/// held, a `fetch_add` the value from before it.
pub open spec fn answer_at(start: u32, ops: Seq<ScalarOp>, at: int) -> u32
    recommends
        0 <= at < ops.len(),
{
    value_after(start, ops.take(at))
}

/// A load sees the last store: in every history, where a store of `value`
/// is followed by loads only, each of those loads answers `value`.
pub proof fn lemma_load_sees_last_store(
    start: u32,
    ops: Seq<ScalarOp>,
    stored_at: int,
    loaded_at: int,
    value: u32,
)
    requires
        0 <= stored_at < loaded_at < ops.len(),
        ops[stored_at] == ScalarOp::Store(value),
        forall|k: int| stored_at < k <= loaded_at ==> (#[trigger] ops[k]).reads_only(),
    ensures
        answer_at(start, ops, loaded_at) == value,
    decreases loaded_at - stored_at,
{
    let upto = ops.take(loaded_at);
    assert(upto.drop_last() =~= ops.take(loaded_at - 1));
    assert(upto.last() == ops[loaded_at - 1]);
    if loaded_at - 1 == stored_at {
    } else {
        assert(ops[loaded_at - 1].reads_only());
        lemma_load_sees_last_store(start, ops, stored_at, loaded_at - 1, value);
    }
}

/// A shared handle to an atomic scalar.
///
/// Any number of clones may read and write at once; each operation is
/// indivisible, and nothing orders the operations of different holders. A
/// value read may already be stale when the call returns, so no contract
/// here speaks of it.
#[derive(Clone)]
pub struct SharedScalar {
    inner: Arc<AtomicCell<u32>>,
}

/// `AtomicCell::load` through a shared handle: the value at some moment
/// during the call.
#[verifier::external_body]
fn shared_load(c: &Arc<AtomicCell<u32>>) -> u32 {
    c.load()
}

/// `AtomicCell::store` through a shared handle.
#[verifier::external_body]
fn shared_store(c: &Arc<AtomicCell<u32>>, value: u32) {
    c.store(value)
}

/// `AtomicCell::fetch_add` through a shared handle: the value from just
/// before the addition, whatever the other holders had made it.
#[verifier::external_body]
fn shared_fetch_add(c: &Arc<AtomicCell<u32>>, delta: u32) -> u32 {
    c.fetch_add(delta)
}

impl SharedScalar {
    /// The value the scalar held when it became shared. What it holds later
    /// is up to its holders.
    pub closed spec fn initial(&self) -> u32 {
        cell_value(*self.inner)
    }

    /// A shared scalar that starts out holding `value`.
    pub fn new(value: u32) -> (shared: Self)
        ensures
            shared.initial() == value,
    {
        AtomicScalar::new(value).into_shared()
    }

    /// The value held at some moment during the call.
    pub fn load(&self) -> u32 {
        shared_load(&self.inner)
    }

    /// Publishes `value` in one indivisible step.
    pub fn store(&self, value: u32) {
        shared_store(&self.inner, value)
    }

    /// Adds `delta` in one indivisible step, wrapping on overflow, and
    /// returns the value from just before.
    pub fn fetch_add(&self, delta: u32) -> u32 {
        shared_fetch_add(&self.inner, delta)
    }

    /// What one worker does to the scalar: it adds one if `bump` is set, and
    /// then reads the value, which other workers may have changed in
    /// between.
    pub fn touch(&self, bump: bool) -> u32 {
        if bump {
            self.fetch_add(1);
        }
        self.load()
    }
}

} // verus!
