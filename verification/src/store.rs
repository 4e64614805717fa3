use vstd::prelude::*;
use crate::job::{Job, JobStatus, spec_status_of};

verus! {

/// One row of the jobs table, as read back: timestamps already in
/// milliseconds, everything else as stored.
pub struct JobRowData {
    pub id: String,
    pub project_name: String,
    pub branch: String,
    pub status: String,
    pub commit_sha: Option<String>,
    pub commit_message: Option<String>,
    pub commit_author_name: Option<String>,
    pub started_at: i64,
    pub completed_at: Option<i64>,
    pub output: Option<String>,
    pub output_truncated: Option<bool>,
    pub error: Option<String>,
}

/// Reads a stored row back into a job: the status name maps to its status,
/// anything unrecognized to `Failed`, and an absent truncation flag to
/// false.
pub fn job_from_row(row: JobRowData) -> (r: Job)
    ensures
        r.id == row.id,
        r.project_name == row.project_name,
        r.branch == row.branch,
        r.commit_sha == row.commit_sha,
        r.commit_message == row.commit_message,
        r.commit_author == row.commit_author_name,
        r.status == spec_status_of(row.status@),
        r.started_at == row.started_at,
        r.completed_at == row.completed_at,
        r.output == row.output,
        r.output_truncated == match row.output_truncated {
            Some(b) => b,
            None => false,
        },
        r.error == row.error,
{
    let status = JobStatus::parse(row.status.as_str());
    Job {
        id: row.id,
        project_name: row.project_name,
        branch: row.branch,
        commit_sha: row.commit_sha,
        commit_message: row.commit_message,
        commit_author: row.commit_author_name,
        status,
        started_at: row.started_at,
        completed_at: row.completed_at,
        output: row.output,
        output_truncated: match row.output_truncated {
            Some(b) => b,
            None => false,
        },
        error: row.error,
    }
}

} // verus!
