//! A join barrier: a coordinator waits until every handle it issued has
//! been released. Backed by crossbeam's `WaitGroup`.

use crossbeam::sync::WaitGroup;
use vstd::prelude::*;

verus! {

/// crossbeam's wait group, opaque to the verifier.
#[verifier::external_type_specification]
#[verifier::external_body]
pub struct ExWaitGroup(WaitGroup);

/// `WaitGroup::new`: the single reference to a new group.
#[verifier::external_body]
fn group_new() -> WaitGroup {
    WaitGroup::new()
}

/// `WaitGroup::clone`: one more reference to the same group.
#[verifier::external_body]
fn group_join(group: &WaitGroup) -> WaitGroup {
    group.clone()
}

/// `WaitGroup::wait`: drops this reference and returns once every other
/// reference to the group has been dropped. Until then it blocks.
#[verifier::external_body]
fn group_wait(group: WaitGroup) {
    group.wait()
}

/// The coordinator's end of a join barrier.
pub struct JoinBarrier {
    group: WaitGroup,
}

/// A worker's handle on a join barrier. It counts as outstanding until it
/// is released or dropped.
pub struct BarrierHandle {
    group: WaitGroup,
}

impl JoinBarrier {
    /// A barrier with no handle outstanding.
    pub fn new() -> Self {
        JoinBarrier { group: group_new() }
    }

    /// Issues one more handle, which is outstanding from now on.
    pub fn issue(&self) -> BarrierHandle {
        BarrierHandle { group: group_join(&self.group) }
    }

    /// Blocks until no handle is outstanding. A handle that is never
    /// released keeps the caller waiting for ever.
    pub fn wait(self) {
        group_wait(self.group)
    }
}

impl BarrierHandle {
    /// One more handle on the same barrier, outstanding from now on.
    pub fn fork(&self) -> BarrierHandle {
        BarrierHandle { group: group_join(&self.group) }
    }

    /// Releases the handle. Taking it by value, a handle cannot be released
    /// twice.
    pub fn release(self) {
    }
}

} // verus!
