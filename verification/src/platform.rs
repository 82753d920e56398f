//! The memory query of a platform without memory accounting.

use crate::{MemoryStats, Proc};
use vstd::prelude::*;

verus! {

/// Answers for a platform that offers no memory accounting: whatever the
/// process, its memory use is unavailable.
pub fn memory_stats(_proc: Proc) -> (stats: Option<MemoryStats>)
    ensures
        stats is None,
{
    None
}

} // verus!
