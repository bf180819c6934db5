//! The shapes of the answers that carry counters.

use std::collections::HashMap;
use vstd::prelude::*;

verus! {

/// Counters of one project.
#[derive(Debug, Clone, PartialEq, Eq)]
pub struct ProjectStats {
    pub project: String,
    pub total_memories: u64,
    pub total_sessions: u64,
    pub total_size_bytes: u64,
    pub created_at: u64,
    pub last_updated: u64,
}

/// The state that the server reports of itself.
#[derive(Debug, Clone, PartialEq, Eq)]
pub struct HealthStatus {
    pub status: String,
    pub version: String,
    /// Seconds since the server started.
    pub uptime: u64,
    /// Bytes in use, by the name of the memory region.
    pub memory_usage: HashMap<String, u64>,
}

} // verus!
