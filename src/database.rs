//! Counts reported by the document store.

use vstd::prelude::*;

verus! {

#[derive(Debug, Clone)]
pub struct DatabaseStats {
    pub pending_tasks: u64,
    pub running_tasks: u64,
    pub completed_tasks: u64,
    pub failed_tasks: u64,
}

} // verus!
