//! Response bodies of the health routes.

use vstd::prelude::*;

verus! {

#[derive(Debug, Clone)]
pub struct HealthResponse {
    status: String,
    version: String,
}

#[derive(Debug, Clone)]
pub struct StatsResponse {
    database: DatabaseStats,
    modules: ModuleStats,
}

/// Task counts by status, as reported by the health route.
#[derive(Debug, Clone)]
struct DatabaseStats {
    pending_tasks: u64,
    running_tasks: u64,
    completed_tasks: u64,
    failed_tasks: u64,
}

/// Which modules are running.
#[derive(Debug, Clone)]
struct ModuleStats {
    anime_enabled: bool,
    picture_enabled: bool,
}

} // verus!
