//! Counting what a worker's attempts on a shared primitive brought back.
//!
//! Whether an attempt goes through is decided by the other holders of the
//! primitive. What a worker makes of each answer is decided here.

use vstd::prelude::*;

verus! {

/// The count after an attempt that hands its item back when it is refused:
/// one more where the attempt went through, and `None`, which ends the run,
/// where the item came back.
pub open spec fn accepted_after(so_far: usize, outcome: Result<(), u32>) -> Option<usize> {
    match outcome {
        Ok(_) => Some((so_far + 1) as usize),
        Err(_) => None,
    }
}

/// The count after an attempt that may come back empty: one more where it
/// brought an item, the same where it brought none.
pub open spec fn taken_after(so_far: usize, outcome: Option<u32>) -> usize {
    match outcome {
        Some(_) => (so_far + 1) as usize,
        None => so_far,
    }
}

/// Counts one attempt of a producer, which stops at the first refusal.
pub fn count_accepted(so_far: usize, outcome: Result<(), u32>) -> (next: Option<usize>)
    requires
        so_far < usize::MAX,
    ensures
        next == accepted_after(so_far, outcome),
{
    match outcome {
        Ok(_) => Some(so_far + 1),
        Err(_) => None,
    }
}

/// Counts one attempt of a consumer, which goes on whatever came back.
pub fn count_taken(so_far: usize, outcome: Option<u32>) -> (next: usize)
    requires
        so_far < usize::MAX,
    ensures
        next == taken_after(so_far, outcome),
{
    match outcome {
        Some(_) => so_far + 1,
        None => so_far,
    }
}

} // verus!
