use vstd::prelude::*;
use vstd::string::StringExecFns;

verus! {

/// Represents a structured log entry for a specific step in a job.
/// Timestamps are milliseconds since the Unix epoch.
pub struct JobLog {
    pub id: Option<i64>,
    pub job_id: String,
    pub sequence: i32,
    pub log_type: String,
    pub command: Option<String>,
    pub started_at: i64,
    pub completed_at: Option<i64>,
    pub duration_ms: Option<i64>,
    pub exit_code: Option<i32>,
    pub output: Option<String>,
    pub status: String,
}

/// A well-formed step row: its status is one of the four known ones; a
/// running row has no results yet, and any other has them all, set together,
/// with a completion no earlier than its start.
pub open spec fn row_wf(log: JobLog) -> bool {
    &&& log.started_at >= 0
    &&& {
        ||| log.status@ == "running"@
        ||| log.status@ == "success"@
        ||| log.status@ == "failed"@
        ||| log.status@ == "skipped"@
    }
    &&& log.status@ == "running"@ ==> {
        &&& log.completed_at is None
        &&& log.duration_ms is None
        &&& log.exit_code is None
        &&& log.output is None
    }
    &&& log.status@ != "running"@ ==> {
        &&& match log.completed_at {
            Some(c) => c >= log.started_at,
            None => false,
        }
        &&& match log.duration_ms {
            Some(d) => d >= 0,
            None => false,
        }
        &&& log.exit_code is Some
        &&& log.output is Some
    }
}

proof fn lemma_status_literals_distinct()
    ensures
        "success"@ != "running"@,
        "failed"@ != "running"@,
        "skipped"@ != "running"@,
{
    reveal_strlit("running");
    reveal_strlit("success");
    reveal_strlit("failed");
    reveal_strlit("skipped");
    assert(("success"@)[0] != ("running"@)[0]);
    assert(("failed"@).len() != ("running"@).len());
    assert(("skipped"@)[0] != ("running"@)[0]);
}

/// Keeps the ordered step rows of one job while its pipeline runs: each
/// started step persists a `running` row, and its completion finalizes that
/// row.
pub struct PipelineLogger {
    pub job_id: String,
    pub sequence: i32,
    pub logs: Vec<JobLog>,
}

impl PipelineLogger {
    /// The step rows carry the dense sequences 1..N in insertion order, all
    /// belong to this job, each is well-formed, and only the last row may
    /// still be running.
    pub open spec fn wf(&self) -> bool {
        &&& self.sequence == self.logs@.len()
        &&& self.logs@.len() < 0x7fff_ffff
        &&& forall|i: int| 0 <= i < self.logs@.len() ==> (#[trigger] self.logs@[i]).sequence == i + 1
        &&& forall|i: int| 0 <= i < self.logs@.len() ==> (#[trigger] self.logs@[i]).job_id@
            == self.job_id@
        &&& forall|i: int| 0 <= i < self.logs@.len() ==> row_wf(#[trigger] self.logs@[i])
        &&& forall|i: int|
            0 <= i < self.logs@.len() - 1 ==> (#[trigger] self.logs@[i]).status@ != "running"@
    }

    /// Whether a step has been started and not yet finished.
    pub open spec fn in_step(&self) -> bool {
        self.logs@.len() > 0 && self.logs@.last().status@ == "running"@
    }

    /// A fresh logger for one job: no steps yet.
    pub fn new(job_id: String) -> (r: Self)
        ensures
            r.wf(),
            !r.in_step(),
            r.job_id == job_id,
            r.logs@.len() == 0,
    {
        PipelineLogger { job_id, sequence: 0, logs: Vec::new() }
    }

    /// The row of the step started or finished last.
    pub fn last_log(&self) -> (r: &JobLog)
        requires
            self.logs@.len() > 0,
        ensures
            *r == self.logs@.last(),
    {
        &self.logs[self.logs.len() - 1]
    }

    /// Starts the next step: appends a `running` row with the next sequence
    /// number.
    pub fn start_step(&mut self, log_type: String, command: Option<String>, now: i64) -> (seq: i32)
        requires
            old(self).wf(),
            !old(self).in_step(),
            old(self).logs@.len() + 1 < 0x7fff_ffff,
            now >= 0,
        ensures
            final(self).wf(),
            final(self).in_step(),
            final(self).job_id == old(self).job_id,
            seq == old(self).logs@.len() + 1,
            final(self).logs@ == old(self).logs@.push(
                JobLog {
                    id: None,
                    job_id: old(self).job_id,
                    sequence: seq,
                    log_type: log_type,
                    command: command,
                    started_at: now,
                    completed_at: None,
                    duration_ms: None,
                    exit_code: None,
                    output: None,
                    status: final(self).logs@.last().status,
                },
            ),
            final(self).logs@.last().status@ == "running"@,
    {
        self.sequence = self.sequence + 1;
        let row = JobLog {
            id: None,
            job_id: self.job_id.clone(),
            sequence: self.sequence,
            log_type,
            command,
            started_at: now,
            completed_at: None,
            duration_ms: None,
            exit_code: None,
            output: None,
            status: running_str(),
        };
        self.logs.push(row);
        proof {
            lemma_status_literals_distinct();
            if old(self).logs@.len() > 0 {
                assert(old(self).logs@.last().status@ != "running"@);
            }
            assert forall|i: int| 0 <= i < self.logs@.len() implies row_wf(
                #[trigger] self.logs@[i],
            ) by {
                if i < self.logs@.len() - 1 {
                    assert(self.logs@[i] == old(self).logs@[i]);
                    assert(row_wf(old(self).logs@[i]));
                }
            }
            assert forall|i: int| 0 <= i < self.logs@.len() - 1 implies (
            #[trigger] self.logs@[i]).status@ != "running"@ by {
                assert(self.logs@[i] == old(self).logs@[i]);
            }
        }
        self.sequence
    }

    /// Finishes the running step: its row gets the completion timestamp, the
    /// duration, the exit code, the captured output, and the given final
    /// status, all at once.
    fn finish_step(&mut self, output: String, exit_code: i32, status: String, now: i64)
        requires
            old(self).wf(),
            old(self).in_step(),
            now >= 0,
            status@ == "success"@ || status@ == "failed"@ || status@ == "skipped"@,
        ensures
            final(self).wf(),
            !final(self).in_step(),
            final(self).job_id == old(self).job_id,
            final(self).logs@.len() == old(self).logs@.len(),
            final(self).logs@ == old(self).logs@.update(
                old(self).logs@.len() - 1,
                final(self).logs@.last(),
            ),
            ({
                let last = final(self).logs@.last();
                let prev = old(self).logs@.last();
                &&& last.id == prev.id
                &&& last.job_id == prev.job_id
                &&& last.sequence == prev.sequence
                &&& last.log_type == prev.log_type
                &&& last.command == prev.command
                &&& last.started_at == prev.started_at
                &&& last.status == status
                &&& last.exit_code == Some(exit_code)
                &&& last.output == Some(output)
                &&& match last.completed_at {
                    Some(c) => c >= prev.started_at && c == if now >= prev.started_at {
                        now as int
                    } else {
                        prev.started_at as int
                    },
                    None => false,
                }
                &&& match (last.completed_at, last.duration_ms) {
                    (Some(c), Some(d)) => d == c - prev.started_at,
                    _ => false,
                }
            }),
    {
        let n = self.logs.len();
        let row = self.logs.pop().unwrap();
        let completed = if now >= row.started_at {
            now
        } else {
            row.started_at
        };
        let finished = JobLog {
            completed_at: Some(completed),
            duration_ms: Some(completed - row.started_at),
            exit_code: Some(exit_code),
            output: Some(output),
            status,
            ..row
        };
        self.logs.push(finished);
        proof {
            lemma_status_literals_distinct();
            let prev = old(self).logs@.last();
            assert(row_wf(prev));
            assert(row_wf(finished));
            assert(self.logs@ =~= old(self).logs@.update(
                old(self).logs@.len() - 1,
                self.logs@.last(),
            ));
            assert forall|i: int| 0 <= i < self.logs@.len() implies row_wf(
                #[trigger] self.logs@[i],
            ) by {
                if i < self.logs@.len() - 1 {
                    assert(self.logs@[i] == old(self).logs@[i]);
                    assert(row_wf(old(self).logs@[i]));
                }
            }
            assert forall|i: int| 0 <= i < self.logs@.len() - 1 implies (
            #[trigger] self.logs@[i]).status@ != "running"@ by {
                assert(self.logs@[i] == old(self).logs@[i]);
            }
        }
    }

    /// Complete a step with success
    pub fn complete_step(&mut self, output: String, exit_code: i32, now: i64)
        requires
            old(self).wf(),
            old(self).in_step(),
            now >= 0,
        ensures
            final(self).wf(),
            !final(self).in_step(),
            final(self).job_id == old(self).job_id,
            final(self).logs@.len() == old(self).logs@.len(),
            final(self).logs@ == old(self).logs@.update(
                old(self).logs@.len() - 1,
                final(self).logs@.last(),
            ),
            finished_as(
                final(self).logs@.last(),
                old(self).logs@.last(),
                output,
                exit_code,
                "success"@,
                now,
            ),
    {
        self.finish_step(output, exit_code, success_str(), now);
    }

    /// Complete a step with failure
    pub fn fail_step(&mut self, output: String, exit_code: i32, now: i64)
        requires
            old(self).wf(),
            old(self).in_step(),
            now >= 0,
        ensures
            final(self).wf(),
            !final(self).in_step(),
            final(self).job_id == old(self).job_id,
            final(self).logs@.len() == old(self).logs@.len(),
            final(self).logs@ == old(self).logs@.update(
                old(self).logs@.len() - 1,
                final(self).logs@.last(),
            ),
            finished_as(
                final(self).logs@.last(),
                old(self).logs@.last(),
                output,
                exit_code,
                "failed"@,
                now,
            ),
    {
        self.finish_step(output, exit_code, failed_str(), now);
    }
}

/// How a finished row relates to the running row it finalizes: everything
/// recorded at the start is kept, and the results are set together.
pub open spec fn finished_as(
    last: JobLog,
    prev: JobLog,
    output: String,
    exit_code: i32,
    status: Seq<char>,
    now: i64,
) -> bool {
    &&& last.id == prev.id
    &&& last.job_id == prev.job_id
    &&& last.sequence == prev.sequence
    &&& last.log_type == prev.log_type
    &&& last.command == prev.command
    &&& last.started_at == prev.started_at
    &&& last.status@ == status
    &&& last.exit_code == Some(exit_code)
    &&& last.output == Some(output)
    &&& match last.completed_at {
        Some(c) => c >= prev.started_at && c == if now >= prev.started_at {
            now as int
        } else {
            prev.started_at as int
        },
        None => false,
    }
    &&& match (last.completed_at, last.duration_ms) {
        (Some(c), Some(d)) => d == c - prev.started_at,
        _ => false,
    }
}

/// The literal status of a step not yet finished.
pub fn running_str() -> (r: String)
    ensures
        r@ == "running"@,
{
    String::from_str("running")
}

/// The literal status of a step that succeeded.
pub fn success_str() -> (r: String)
    ensures
        r@ == "success"@,
{
    String::from_str("success")
}

/// The literal status of a step that failed.
pub fn failed_str() -> (r: String)
    ensures
        r@ == "failed"@,
{
    String::from_str("failed")
}

/// The literal status of a step a dry run skipped.
pub fn skipped_str() -> (r: String)
    ensures
        r@ == "skipped"@,
{
    String::from_str("skipped")
}

/// Law: the step rows of one job carry the dense sequences 1..N in insertion
/// order, and at most one of them, only ever the last, is in running status.
pub proof fn lemma_log_rows_dense(l: PipelineLogger)
    requires
        l.wf(),
    ensures
        forall|i: int| 0 <= i < l.logs@.len() ==> (#[trigger] l.logs@[i]).sequence == i + 1,
        forall|i: int|
            0 <= i < l.logs@.len() && (#[trigger] l.logs@[i]).status@ == "running"@ ==> i
                == l.logs@.len() - 1,
{
}

/// The fields a step row gets when it is started, whatever becomes of it.
pub open spec fn step_row_view(
    row: JobLog,
    job_id: Seq<char>,
    seqno: int,
    log_type: Seq<char>,
    command: Seq<char>,
    now: i64,
) -> bool {
    &&& row.id is None
    &&& row.job_id@ == job_id
    &&& row.sequence == seqno
    &&& row.log_type@ == log_type
    &&& match row.command {
        Some(c) => c@ == command,
        None => false,
    }
    &&& row.started_at == now
}

/// A freshly started row: running, with no results yet.
pub open spec fn started_row_view(
    row: JobLog,
    job_id: Seq<char>,
    seqno: int,
    log_type: Seq<char>,
    command: Seq<char>,
    now: i64,
) -> bool {
    &&& step_row_view(row, job_id, seqno, log_type, command, now)
    &&& row.status@ == "running"@
    &&& row.completed_at is None
    &&& row.duration_ms is None
    &&& row.exit_code is None
    &&& row.output is None
}

/// How a finished row relates, at the level of views, to the running row it
/// finalizes.
pub open spec fn finished_row_view(
    last: JobLog,
    prev: JobLog,
    output: Seq<char>,
    exit_code: int,
    status: Seq<char>,
    now: i64,
) -> bool {
    &&& last.id == prev.id
    &&& last.job_id == prev.job_id
    &&& last.sequence == prev.sequence
    &&& last.log_type == prev.log_type
    &&& last.command == prev.command
    &&& last.started_at == prev.started_at
    &&& last.status@ == status
    &&& match last.exit_code {
        Some(c) => c == exit_code,
        None => false,
    }
    &&& match last.output {
        Some(o) => o@ == output,
        None => false,
    }
    &&& match last.completed_at {
        Some(c) => c >= prev.started_at && c == if now >= prev.started_at {
            now as int
        } else {
            prev.started_at as int
        },
        None => false,
    }
    &&& match (last.completed_at, last.duration_ms) {
        (Some(c), Some(d)) => d == c - prev.started_at,
        _ => false,
    }
}

} // verus!
