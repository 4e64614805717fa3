use vstd::prelude::*;
use crate::strutil::{str_eq, truncate_with_marker};
use crate::time::current_time_ms;

verus! {

/// Maximum size for job output before truncation (1MB)
pub const MAX_OUTPUT_SIZE: usize = 1024 * 1024;

/// Represents the status of a CI/CD job
#[derive(Clone, Copy, Debug, PartialEq, Eq, Structural)]
pub enum JobStatus {
    Queued,
    Running,
    Success,
    Failed,
}

/// The lowercase name under which a status is persisted and served.
pub open spec fn spec_status_str(s: JobStatus) -> Seq<char> {
    match s {
        JobStatus::Queued => "queued"@,
        JobStatus::Running => "running"@,
        JobStatus::Success => "success"@,
        JobStatus::Failed => "failed"@,
    }
}

/// The status a persisted name maps back to; anything unrecognized is read as
/// `Failed`.
pub open spec fn spec_status_of(s: Seq<char>) -> JobStatus {
    if s == "queued"@ {
        JobStatus::Queued
    } else if s == "running"@ {
        JobStatus::Running
    } else if s == "success"@ {
        JobStatus::Success
    } else {
        JobStatus::Failed
    }
}

impl JobStatus {
    /// The lowercase enum name, as stored and served.
    pub fn as_str(&self) -> (r: &'static str)
        ensures
            r@ == spec_status_str(*self),
    {
        match self {
            JobStatus::Queued => "queued",
            JobStatus::Running => "running",
            JobStatus::Success => "success",
            JobStatus::Failed => "failed",
        }
    }

    /// Reads a persisted status name back; anything unrecognized maps to
    /// `Failed`.
    pub fn parse(s: &str) -> (r: JobStatus)
        ensures
            r == spec_status_of(s@),
    {
        if str_eq(s, "queued") {
            JobStatus::Queued
        } else if str_eq(s, "running") {
            JobStatus::Running
        } else if str_eq(s, "success") {
            JobStatus::Success
        } else {
            JobStatus::Failed
        }
    }

    /// Whether this status is terminal.
    pub open spec fn spec_is_terminal(&self) -> bool {
        self is Success || self is Failed
    }
}

/// Represents a CI/CD job with its metadata and execution details.
/// Timestamps are milliseconds since the Unix epoch.
pub struct Job {
    pub id: String,
    pub project_name: String,
    pub branch: String,
    pub commit_sha: Option<String>,
    pub commit_message: Option<String>,
    pub commit_author: Option<String>,
    pub status: JobStatus,
    pub started_at: i64,
    pub completed_at: Option<i64>,
    pub output: Option<String>,
    pub output_truncated: bool,
    pub error: Option<String>,
}

impl Job {
    /// The invariant every job maintains through its lifecycle: a job not yet
    /// finished carries no results; a terminal job completed no earlier than
    /// it started; success comes with output and no error; failure comes with
    /// an error.
    pub open spec fn inv(&self) -> bool {
        &&& self.started_at >= 0
        &&& (self.status is Queued || self.status is Running) ==> {
            &&& self.completed_at is None
            &&& self.output is None
            &&& self.error is None
            &&& !self.output_truncated
        }
        &&& self.status is Success ==> {
            &&& match self.completed_at {
                Some(c) => c >= self.started_at,
                None => false,
            }
            &&& self.output is Some
            &&& self.error is None
        }
        &&& self.status is Failed ==> {
            &&& match self.completed_at {
                Some(c) => c >= self.started_at,
                None => false,
            }
            &&& self.error is Some
        }
    }

    /// Create a new job in Queued status
    pub fn new(project_name: String, branch: String) -> (r: Job)
        ensures
            r.inv(),
            r.status is Queued,
            r.project_name == project_name,
            r.branch == branch,
            r.commit_sha is None,
            r.commit_message is None,
            r.commit_author is None,
            r.completed_at is None,
            r.output is None,
            !r.output_truncated,
            r.error is None,
            r.id@.len() == 36,
    {
        Job::from_webhook(project_name, branch, None, None, None)
    }

    /// Create a new job from webhook data
    pub fn from_webhook(
        project_name: String,
        branch: String,
        commit_sha: Option<String>,
        commit_message: Option<String>,
        commit_author: Option<String>,
    ) -> (r: Job)
        ensures
            r.inv(),
            r.status is Queued,
            r.project_name == project_name,
            r.branch == branch,
            r.commit_sha == commit_sha,
            r.commit_message == commit_message,
            r.commit_author == commit_author,
            r.completed_at is None,
            r.output is None,
            !r.output_truncated,
            r.error is None,
            r.id@.len() == 36,
    {
        Job {
            id: new_job_id(),
            project_name,
            branch,
            commit_sha,
            commit_message,
            commit_author,
            status: JobStatus::Queued,
            started_at: current_time_ms(),
            completed_at: None,
            output: None,
            output_truncated: false,
            error: None,
        }
    }

    /// Mark job as running
    pub fn mark_running(&mut self)
        requires
            old(self).inv(),
            old(self).status is Queued,
        ensures
            final(self).inv(),
            *final(self) == (Job { status: JobStatus::Running, ..*old(self) }),
    {
        self.status = JobStatus::Running;
    }

    /// Mark job as successful with output (truncates if too large)
    pub fn mark_success(&mut self, output: String)
        requires
            old(self).inv(),
            !old(self).status.spec_is_terminal(),
        ensures
            final(self).inv(),
            final(self).status is Success,
            final(self).error is None,
            match final(self).completed_at {
                Some(c) => c >= old(self).started_at,
                None => false,
            },
            match final(self).output {
                Some(o) => {
                    if output@.len() > MAX_OUTPUT_SIZE {
                        &&& o@ == output@.subrange(0, MAX_OUTPUT_SIZE as int) + "\n... (output truncated)"@
                        &&& final(self).output_truncated
                    } else {
                        &&& o@ == output@
                        &&& !final(self).output_truncated
                    }
                },
                None => false,
            },
            *final(self) == (Job {
                status: JobStatus::Success,
                completed_at: final(self).completed_at,
                output: final(self).output,
                output_truncated: final(self).output_truncated,
                ..*old(self)
            }),
    {
        let now = current_time_ms();
        let completed = if now < self.started_at {
            self.started_at
        } else {
            now
        };
        let (out, truncated) = truncate_with_marker(
            output.as_str(),
            MAX_OUTPUT_SIZE,
            "\n... (output truncated)",
        );
        self.status = JobStatus::Success;
        self.completed_at = Some(completed);
        self.output = Some(out);
        self.output_truncated = truncated;
    }

    /// Mark job as failed with error
    pub fn mark_failed(&mut self, error: String)
        requires
            old(self).inv(),
            !old(self).status.spec_is_terminal(),
        ensures
            final(self).inv(),
            final(self).status is Failed,
            final(self).error == Some(error),
            match final(self).completed_at {
                Some(c) => c >= old(self).started_at,
                None => false,
            },
            *final(self) == (Job {
                status: JobStatus::Failed,
                completed_at: final(self).completed_at,
                error: Some(error),
                ..*old(self)
            }),
    {
        let now = current_time_ms();
        let completed = if now < self.started_at {
            self.started_at
        } else {
            now
        };
        self.status = JobStatus::Failed;
        self.completed_at = Some(completed);
        self.error = Some(error);
    }
}

/// The time a job took, clamped to be non-negative.
pub open spec fn spec_job_duration(started_at: i64, completed_at: i64) -> int {
    if completed_at >= started_at {
        completed_at - started_at
    } else {
        0
    }
}

/// How long a job ran, in milliseconds: the difference of its completion and
/// start timestamps, clamped to zero when the clock ran backwards.
pub fn job_duration_ms(started_at: i64, completed_at: i64) -> (r: i64)
    requires
        started_at >= 0,
        completed_at >= 0,
    ensures
        r == spec_job_duration(started_at, completed_at),
        r >= 0,
{
    if completed_at >= started_at {
        completed_at - started_at
    } else {
        0
    }
}

/// Law: every terminal job completed no earlier than it started, and its
/// duration is exactly the difference of completion and start timestamps,
/// clamped to be non-negative.
pub proof fn lemma_terminal_job_timing(job: Job)
    requires
        job.inv(),
        job.status.spec_is_terminal(),
    ensures
        match job.completed_at {
            Some(c) => c >= job.started_at && spec_job_duration(job.started_at, c) == c
                - job.started_at >= 0,
            None => false,
        },
{
}

/// Law: a `Success` job carries output and no error; a `Failed` job carries
/// an error.
pub proof fn lemma_terminal_job_fields(job: Job)
    requires
        job.inv(),
    ensures
        job.status is Success ==> job.error is None && job.output is Some,
        job.status is Failed ==> job.error is Some,
{
}

/// Relies on uuid's `Uuid::now_v7` and its `Display` form: a fresh
/// time-ordered version-7 identifier, rendered hyphenated as 36 characters.
#[verifier::external_body]
fn new_job_id() -> (r: String)
    ensures
        r@.len() == 36,
{
    uuid::Uuid::now_v7().to_string()
}

/// Law: output size cap. A captured output over the cap is stored as
/// exactly the cap plus the truncation marker's length, 23 characters.
pub proof fn lemma_output_cap(output: Seq<char>)
    requires
        output.len() > MAX_OUTPUT_SIZE,
    ensures
        (output.subrange(0, MAX_OUTPUT_SIZE as int) + "\n... (output truncated)"@).len()
            == MAX_OUTPUT_SIZE + 23,
{
    reveal_strlit("\n... (output truncated)");
}

} // verus!
