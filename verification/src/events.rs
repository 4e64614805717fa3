use vstd::prelude::*;
use crate::job::Job;
use crate::time::{current_time_ms, millis_to_rfc3339, rfc3339_of};

verus! {

/// Job event for SSE broadcasting
pub struct JobEvent {
    pub event_type: String,
    pub job_id: String,
    pub project_name: String,
    pub branch: String,
    pub timestamp: String,
}

impl JobEvent {
    /// An event stamped with the moment it is made.
    pub fn new(event_type: String, job_id: String, project_name: String, branch: String) -> (r:
        Self)
        ensures
            r.event_type == event_type,
            r.job_id == job_id,
            r.project_name == project_name,
            r.branch == branch,
            exists|ms: i64| ms >= 0 && r.timestamp@ == rfc3339_of(ms as int),
    {
        let ms = current_time_ms();
        JobEvent { event_type, job_id, project_name, branch, timestamp: millis_to_rfc3339(ms) }
    }
}

/// Log chunk event for real-time log streaming
pub struct LogChunkEvent {
    pub job_id: String,
    pub step_type: String,
    pub chunk: String,
    pub timestamp: String,
}

impl LogChunkEvent {
    /// A chunk stamped with the moment it is made.
    pub fn new(job_id: String, step_type: String, chunk: String) -> (r: Self)
        ensures
            r.job_id == job_id,
            r.step_type == step_type,
            r.chunk == chunk,
            exists|ms: i64| ms >= 0 && r.timestamp@ == rfc3339_of(ms as int),
    {
        let ms = current_time_ms();
        LogChunkEvent { job_id, step_type, chunk, timestamp: millis_to_rfc3339(ms) }
    }
}

/// Server statistics
pub struct ServerStats {
    pub name: String,
    pub version: String,
    pub uptime_seconds: u64,
    pub started_at: String,
    pub total_projects: usize,
}

/// Response for config content
pub struct ConfigResponse {
    pub config_toml: String,
    pub path: String,
}

/// Query parameters for job listing
pub struct JobsQuery {
    pub project: Option<String>,
    pub branch: Option<String>,
    pub status: Option<String>,
    pub limit: Option<i64>,
    pub offset: Option<i64>,
}

impl JobsQuery {
    /// The page size served: what was asked for, capped at 100, with 50
    /// when nothing was.
    pub fn effective_limit(&self) -> (r: i64)
        ensures
            r == ({
                let l = match self.limit {
                    Some(l) => l,
                    None => 50,
                };
                if l < 100 {
                    l
                } else {
                    100
                }
            }),
    {
        let l = match self.limit {
            Some(l) => l,
            None => 50,
        };
        if l < 100 {
            l
        } else {
            100
        }
    }

    /// The offset served: what was asked for, with 0 when nothing was.
    pub fn effective_offset(&self) -> (r: i64)
        ensures
            r == match self.offset {
                Some(o) => o,
                None => 0,
            },
    {
        match self.offset {
            Some(o) => o,
            None => 0,
        }
    }
}

/// Response for paginated job listing
pub struct JobsResponse {
    pub jobs: Vec<Job>,
    pub total: i64,
    pub limit: i64,
    pub offset: i64,
}

} // verus!
