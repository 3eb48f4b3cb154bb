//! Durable Task protocol messages and the helpers that build, name and
//! summarize orchestration history events and actions.

pub mod history;
pub mod proto;
pub mod time;
pub mod tracing;
pub mod worker;
pub mod task;

use vstd::prelude::*;

verus! {

/// The sum of two sizes, which must not overflow.
pub fn add(left: usize, right: usize) -> (r: usize)
    requires
        left + right <= usize::MAX,
    ensures
        r == left + right,
{
    left + right
}

} // verus!
