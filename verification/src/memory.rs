//! Memory-reclaim accounting: two samples of the machine's memory
//! counters, taken before and after a best-effort trim, yield a
//! non-negative estimate of the bytes relieved. The trim itself is an
//! operating-system action outside this crate; whatever the second
//! sample shows, the estimate saturates at zero and never fails.
use vstd::prelude::*;

verus! {

/// One reading of the machine's memory counters, in bytes.
#[derive(Clone, Copy, PartialEq, Eq, Structural, Debug)]
pub struct MemorySample {
    pub total: u64,
    pub used: u64,
}

/// The reclaim estimate two samples yield: used before less used
/// after, clamped at zero.
pub open spec fn reclaimed_spec(before: MemorySample, after: MemorySample) -> int {
    if before.used >= after.used {
        before.used - after.used
    } else {
        0
    }
}

/// The estimate is never negative, whatever the two samples hold —
/// also where the second sample shows more memory in use than the
/// first.
pub proof fn lemma_reclaimed_nonnegative(before: MemorySample, after: MemorySample)
    ensures
        reclaimed_spec(before, after) >= 0,
        after.used > before.used ==> reclaimed_spec(before, after) == 0,
{
}

/// Bytes reclaimed between two samples: saturating, never negative,
/// never a failure.
pub fn reclaimed(before: &MemorySample, after: &MemorySample) -> (r: u64)
    ensures
        r as int == reclaimed_spec(*before, *after),
{
    before.used.saturating_sub(after.used)
}

} // verus!
