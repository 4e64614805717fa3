use vstd::prelude::*;
use vstd::string::StringExecFns;
use crate::error::CicdError;
use crate::strutil::{i64_to_string, spec_i64_string, spec_join_spaces, spec_split_whitespace, spec_trim, split_whitespace_tokens, join_spaces, trim_str};
use crate::webhook::WebhookData;
use crate::config::ProjectConfig;
use crate::config::ProjectConfigView;
use crate::pipeline::PipelineLogger;
use crate::pipeline::skipped_str;
use crate::pipeline::{finished_row_view, started_row_view, step_row_view};

verus! {

/// Result of script execution with output and exit code
pub struct ScriptResult {
    pub output: String,
    pub exit_code: i32,
}

/// The step a pipeline is at; each runs one subprocess and writes one row.
#[derive(Clone, Copy, Debug, PartialEq, Eq, Structural)]
pub enum StepKind {
    GitFetch,
    GitReset,
    GitSwitch,
    GitPull,
    PreScript,
    MainScript,
    PostSuccess,
    PostFailure,
    PostScript,
    PostAlways,
}

/// The name under which a step's row is recorded.
pub open spec fn spec_log_type(k: StepKind) -> Seq<char> {
    match k {
        StepKind::GitFetch => "git_fetch"@,
        StepKind::GitReset => "git_reset"@,
        StepKind::GitSwitch => "git_switch"@,
        StepKind::GitPull => "git_pull"@,
        StepKind::PreScript => "pre_script"@,
        StepKind::MainScript => "main_script"@,
        StepKind::PostSuccess => "post_success"@,
        StepKind::PostFailure => "post_failure"@,
        StepKind::PostScript => "post_script"@,
        StepKind::PostAlways => "post_always"@,
    }
}

impl StepKind {
    /// The name under which this step's row is recorded.
    pub fn log_type(&self) -> (r: String)
        ensures
            r@ == spec_log_type(*self),
    {
        match self {
            StepKind::GitFetch => String::from_str("git_fetch"),
            StepKind::GitReset => String::from_str("git_reset"),
            StepKind::GitSwitch => String::from_str("git_switch"),
            StepKind::GitPull => String::from_str("git_pull"),
            StepKind::PreScript => String::from_str("pre_script"),
            StepKind::MainScript => String::from_str("main_script"),
            StepKind::PostSuccess => String::from_str("post_success"),
            StepKind::PostFailure => String::from_str("post_failure"),
            StepKind::PostScript => String::from_str("post_script"),
            StepKind::PostAlways => String::from_str("post_always"),
        }
    }

    /// Whether this step runs a git command rather than a user script.
    pub open spec fn spec_is_git(&self) -> bool {
        self is GitFetch || self is GitReset || self is GitSwitch || self is GitPull
    }

    /// Whether a failure of this step fails the job: git steps and the pre
    /// and main scripts are fatal; post hooks are not.
    pub open spec fn spec_is_fatal(&self) -> bool {
        self.spec_is_git() || self is PreScript || self is MainScript
    }
}

/// What became of one launched step: either the process could not start, or
/// it ran to an exit (a signal death carries no code) with its captured
/// streams.
pub enum StepOutcome {
    SpawnFailed { message: String },
    Exited { exit_code: Option<i32>, stdout: String, stderr: String },
}

/// How a git step's streams are recorded: stdout then stderr, joined as they
/// are.
pub open spec fn spec_git_combined(stdout: Seq<char>, stderr: Seq<char>) -> Seq<char> {
    stdout + stderr
}

/// How a script step's streams are recorded: stdout alone, or stdout, a
/// newline and stderr when stderr carries anything.
pub open spec fn spec_script_combined(stdout: Seq<char>, stderr: Seq<char>) -> Seq<char> {
    if stderr.len() == 0 {
        stdout
    } else {
        stdout + "\n"@ + stderr
    }
}

/// Joins a git step's captured streams.
pub fn git_combined(stdout: &str, stderr: &str) -> (r: String)
    ensures
        r@ == spec_git_combined(stdout@, stderr@),
{
    let mut s = stdout.to_owned();
    s.append(stderr);
    s
}

/// Joins a script step's captured streams.
pub fn script_combined(stdout: &str, stderr: &str) -> (r: String)
    ensures
        r@ == spec_script_combined(stdout@, stderr@),
{
    if stderr.is_empty() {
        stdout.to_owned()
    } else {
        let mut s = stdout.to_owned();
        s.append("\n");
        s.append(stderr);
        proof {
            assert(s@ =~= stdout@ + "\n"@ + stderr@);
        }
        s
    }
}

/// The environment handed to a user script: the project, branch and path
/// always; each optional piece of webhook data when present; and one extra
/// binding when given.
pub open spec fn spec_script_env(
    d: &WebhookData,
    extra: Option<(Seq<char>, Seq<char>)>,
) -> Seq<(Seq<char>, Seq<char>)> {
    let base = seq![
        ("CICD_PROJECT_NAME"@, d.project_name@),
        ("CICD_BRANCH"@, d.branch@),
        ("CICD_REPO_PATH"@, d.repo_path@),
    ];
    let s1 = match d.commit_sha {
        Some(v) => base.push(("CICD_COMMIT_SHA"@, v@)),
        None => base,
    };
    let s2 = match d.commit_message {
        Some(v) => s1.push(("CICD_COMMIT_MESSAGE"@, v@)),
        None => s1,
    };
    let s3 = match d.commit_author_name {
        Some(v) => s2.push(("CICD_COMMIT_AUTHOR_NAME"@, v@)),
        None => s2,
    };
    let s4 = match d.commit_author_email {
        Some(v) => s3.push(("CICD_COMMIT_AUTHOR_EMAIL"@, v@)),
        None => s3,
    };
    let s5 = match d.pusher_name {
        Some(v) => s4.push(("CICD_PUSHER_NAME"@, v@)),
        None => s4,
    };
    let s6 = match d.repository_url {
        Some(v) => s5.push(("CICD_REPOSITORY_URL"@, v@)),
        None => s5,
    };
    match extra {
        Some(kv) => s6.push(kv),
        None => s6,
    }
}

/// Builds the environment handed to a user script.
pub fn build_env(d: &WebhookData, extra: Option<(&str, String)>) -> (r: Vec<(String, String)>)
    ensures
        r.deep_view() == spec_script_env(d, match extra {
            Some(kv) => Some((kv.0@, kv.1@)),
            None => None,
        }),
{
    let mut r: Vec<(String, String)> = Vec::new();
    r.push((String::from_str("CICD_PROJECT_NAME"), d.project_name.clone()));
    r.push((String::from_str("CICD_BRANCH"), d.branch.clone()));
    r.push((String::from_str("CICD_REPO_PATH"), d.repo_path.clone()));
    if let Some(v) = &d.commit_sha {
        r.push((String::from_str("CICD_COMMIT_SHA"), v.clone()));
    }
    if let Some(v) = &d.commit_message {
        r.push((String::from_str("CICD_COMMIT_MESSAGE"), v.clone()));
    }
    if let Some(v) = &d.commit_author_name {
        r.push((String::from_str("CICD_COMMIT_AUTHOR_NAME"), v.clone()));
    }
    if let Some(v) = &d.commit_author_email {
        r.push((String::from_str("CICD_COMMIT_AUTHOR_EMAIL"), v.clone()));
    }
    if let Some(v) = &d.pusher_name {
        r.push((String::from_str("CICD_PUSHER_NAME"), v.clone()));
    }
    if let Some(v) = &d.repository_url {
        r.push((String::from_str("CICD_REPOSITORY_URL"), v.clone()));
    }
    if let Some((k, v)) = extra {
        r.push((k.to_owned(), v));
    }
    proof {
        assert(r.deep_view() =~= spec_script_env(d, match extra {
            Some(kv) => Some((kv.0@, kv.1@)),
            None => None,
        }));
    }
    r
}

/// The message recorded when a script could not be started.
pub open spec fn spec_spawn_fail_message(command_line: Seq<char>, message: Seq<char>) -> Seq<char> {
    "Failed to start script '"@ + command_line + "': "@ + message
}

/// The message recorded when a script exited with a nonzero code; a signal
/// death counts as code -1.
pub open spec fn spec_exit_fail_message(
    command_line: Seq<char>,
    code: int,
    combined: Seq<char>,
) -> Seq<char> {
    "Script '"@ + command_line + "' failed with exit code "@ + spec_i64_string(code) + ".\nOutput: "@
        + spec_trim(combined)
}

/// What a script step's outcome means: an exit with code zero succeeds with
/// the combined streams; anything else is a script-execution failure, with
/// the failure summary saying why.
pub fn script_outcome(command_line: &str, outcome: StepOutcome) -> (r: Result<
    ScriptResult,
    CicdError,
>)
    ensures
        match outcome {
            StepOutcome::SpawnFailed { message } => r matches Err(
                CicdError::ScriptExecutionFailed(m),
            ) && m@ == spec_spawn_fail_message(command_line@, message@),
            StepOutcome::Exited { exit_code, stdout, stderr } => {
                if exit_code == Some(0i32) {
                    r matches Ok(s) && s.output@ == spec_script_combined(stdout@, stderr@)
                        && s.exit_code == 0
                } else {
                    r matches Err(CicdError::ScriptExecutionFailed(m)) && m@
                        == spec_exit_fail_message(
                        command_line@,
                        match exit_code {
                            Some(c) => c as int,
                            None => -1,
                        },
                        spec_script_combined(stdout@, stderr@),
                    )
                }
            },
        },
{
    match outcome {
        StepOutcome::SpawnFailed { message } => {
            let mut m = String::from_str("Failed to start script '");
            m.append(command_line);
            m.append("': ");
            m.append(message.as_str());
            proof {
                assert(m@ =~= spec_spawn_fail_message(command_line@, message@));
            }
            Err(CicdError::ScriptExecutionFailed(m))
        },
        StepOutcome::Exited { exit_code, stdout, stderr } => {
            let code: i32 = match exit_code {
                Some(c) => c,
                None => -1,
            };
            let combined = script_combined(stdout.as_str(), stderr.as_str());
            if exit_code == Some(0i32) {
                Ok(ScriptResult { output: combined, exit_code: 0 })
            } else {
                let mut m = String::from_str("Script '");
                m.append(command_line);
                m.append("' failed with exit code ");
                let code_str = i64_to_string(code as i64);
                m.append(code_str.as_str());
                m.append(".\nOutput: ");
                let trimmed = trim_str(combined.as_str());
                m.append(trimmed.as_str());
                proof {
                    assert(m@ =~= spec_exit_fail_message(
                        command_line@,
                        code as int,
                        spec_script_combined(stdout@, stderr@),
                    ));
                }
                Err(CicdError::ScriptExecutionFailed(m))
            }
        },
    }
}


/// Where a pipeline stands: which step family comes next, or that it is
/// finished.
#[derive(Clone, Copy, Debug, PartialEq, Eq, Structural)]
pub enum Phase {
    AtFetch,
    AtSync,
    AtPull,
    AtPre,
    AtMain,
    AtPost,
    AtAlways,
    Finished,
}

/// Phases in the order a pipeline passes them; every transition climbs.
pub open spec fn spec_phase_rank(p: Phase) -> int {
    match p {
        Phase::AtFetch => 0,
        Phase::AtSync => 1,
        Phase::AtPull => 2,
        Phase::AtPre => 3,
        Phase::AtMain => 4,
        Phase::AtPost => 5,
        Phase::AtAlways => 6,
        Phase::Finished => 7,
    }
}

/// The post hook that runs for the main script's outcome: its own hook when
/// configured, else the shared one, else none.
pub open spec fn spec_post_kind(proj: ProjectConfigView, main_ok: bool) -> Option<StepKind> {
    if main_ok {
        if proj.post_success_script is Some {
            Some(StepKind::PostSuccess)
        } else if proj.post_script is Some {
            Some(StepKind::PostScript)
        } else {
            None
        }
    } else {
        if proj.post_failure_script is Some {
            Some(StepKind::PostFailure)
        } else if proj.post_script is Some {
            Some(StepKind::PostScript)
        } else {
            None
        }
    }
}

/// The phase after the working copy is synced: the pre hook when configured,
/// else the main script.
pub open spec fn spec_after_sync(proj: ProjectConfigView) -> Phase {
    if proj.pre_script is Some {
        Phase::AtPre
    } else {
        Phase::AtMain
    }
}

/// The phase after the post hook's place: the always hook when configured,
/// else the end.
pub open spec fn spec_after_post(proj: ProjectConfigView) -> Phase {
    if proj.post_always_script is Some {
        Phase::AtAlways
    } else {
        Phase::Finished
    }
}

/// The phase after the main script: the post hook for its outcome when one
/// is configured, else past it.
pub open spec fn spec_after_main(proj: ProjectConfigView, main_ok: bool) -> Phase {
    if spec_post_kind(proj, main_ok) is Some {
        Phase::AtPost
    } else {
        spec_after_post(proj)
    }
}

/// The step a non-finished phase runs.
pub open spec fn spec_kind_of_phase(p: Phase, proj: ProjectConfigView, main_ok: bool) -> StepKind {
    match p {
        Phase::AtFetch => StepKind::GitFetch,
        Phase::AtSync => if proj.spec_reset_to_remote() {
            StepKind::GitReset
        } else {
            StepKind::GitSwitch
        },
        Phase::AtPull => StepKind::GitPull,
        Phase::AtPre => StepKind::PreScript,
        Phase::AtMain => StepKind::MainScript,
        Phase::AtPost => spec_post_kind(proj, main_ok)->Some_0,
        Phase::AtAlways => StepKind::PostAlways,
        Phase::Finished => StepKind::GitFetch,
    }
}

/// The phase a successful step leads to.
pub open spec fn spec_phase_after_success(k: StepKind, proj: ProjectConfigView) -> Phase {
    match k {
        StepKind::GitFetch => Phase::AtSync,
        StepKind::GitReset => spec_after_sync(proj),
        StepKind::GitSwitch => Phase::AtPull,
        StepKind::GitPull => spec_after_sync(proj),
        StepKind::PreScript => Phase::AtMain,
        StepKind::MainScript => spec_after_main(proj, true),
        StepKind::PostSuccess => spec_after_post(proj),
        StepKind::PostFailure => spec_after_post(proj),
        StepKind::PostScript => spec_after_post(proj),
        StepKind::PostAlways => Phase::Finished,
    }
}

/// The phase a failed step leads to: a fatal step other than main ends the
/// pipeline; a failed main still reaches its post hooks; failed hooks do not
/// divert it.
pub open spec fn spec_phase_after_failure(k: StepKind, proj: ProjectConfigView) -> Phase {
    match k {
        StepKind::MainScript => spec_after_main(proj, false),
        StepKind::PostSuccess => spec_after_post(proj),
        StepKind::PostFailure => spec_after_post(proj),
        StepKind::PostScript => spec_after_post(proj),
        StepKind::PostAlways => Phase::Finished,
        _ => Phase::Finished,
    }
}

/// The configured command line a script step runs.
pub open spec fn spec_script_of(proj: ProjectConfigView, k: StepKind, branch: Seq<char>) -> Seq<
    char,
> {
    match k {
        StepKind::PreScript => proj.pre_script->Some_0,
        StepKind::MainScript => proj.spec_run_script_for_branch(branch),
        StepKind::PostSuccess => proj.post_success_script->Some_0,
        StepKind::PostFailure => proj.post_failure_script->Some_0,
        StepKind::PostScript => proj.post_script->Some_0,
        StepKind::PostAlways => proj.post_always_script->Some_0,
        _ => Seq::empty(),
    }
}

/// The arguments a git step passes to git.
pub open spec fn spec_git_args(k: StepKind, branch: Seq<char>) -> Seq<Seq<char>> {
    match k {
        StepKind::GitFetch => seq!["fetch"@],
        StepKind::GitReset => seq!["reset"@, "--hard"@, "origin/"@ + branch],
        StepKind::GitSwitch => seq!["switch"@, branch],
        _ => seq!["pull"@],
    }
}

/// The command line a step's row records.
pub open spec fn spec_display_of(k: StepKind, proj: ProjectConfigView, branch: Seq<char>) -> Seq<
    char,
> {
    match k {
        StepKind::GitFetch => "git fetch"@,
        StepKind::GitReset => "git reset --hard origin/"@ + branch,
        StepKind::GitSwitch => "git switch "@ + branch,
        StepKind::GitPull => "git pull"@,
        _ => spec_script_of(proj, k, branch),
    }
}

/// The extra environment binding a post hook receives: the main script's
/// exit code.
pub open spec fn spec_env_extra(k: StepKind, main_exit: i32) -> Option<(Seq<char>, Seq<char>)> {
    match k {
        StepKind::PostSuccess => Some(("CICD_MAIN_SCRIPT_EXIT_CODE"@, spec_i64_string(main_exit as int))),
        StepKind::PostFailure => Some(("CICD_MAIN_SCRIPT_EXIT_CODE"@, spec_i64_string(main_exit as int))),
        StepKind::PostScript => Some(("CICD_MAIN_SCRIPT_EXIT_CODE"@, spec_i64_string(main_exit as int))),
        StepKind::PostAlways => Some(("CICD_MAIN_SCRIPT_EXIT_CODE"@, spec_i64_string(main_exit as int))),
        _ => None,
    }
}

/// One subprocess to launch: the program, its arguments, the environment to
/// inject, and the command line the step's row records.
pub struct StepCommand {
    pub kind: StepKind,
    pub program: String,
    pub args: Vec<String>,
    pub env: Vec<(String, String)>,
    pub display: String,
}

/// What the pipeline asks for next: run a subprocess, ask again after a step
/// that needed none, or stop.
pub enum NextStep {
    Run(StepCommand),
    Skipped,
    Finished,
}

/// Runs one job's pipeline as a machine: each call of `next_step` starts the
/// next step and says what to launch; `finish_step` records what became of
/// it and moves on; `into_result` yields the job's outcome. The subprocesses
/// themselves run outside.
pub struct PipelineMachine {
    pub project: ProjectConfig,
    pub data: WebhookData,
    pub logger: PipelineLogger,
    pub phase: Phase,
    pub current: Option<StepKind>,
    pub main_done: bool,
    pub main_ok: bool,
    pub main_exit: i32,
    pub all_output: String,
    pub failure: Option<CicdError>,
}

impl PipelineMachine {
    /// What holds of the machine between calls: the log rows are
    /// well-formed, a step is underway exactly when one was started and it
    /// is the one its phase runs, phases with hooks are entered only when
    /// the hook is configured, and the main script's outcome is recorded
    /// once it ran.
    pub open spec fn inv(&self) -> bool {
        &&& self.logger.wf()
        &&& self.logger.in_step() <==> self.current is Some
        &&& self.logger.logs@.len() <= spec_phase_rank(self.phase) + if self.current is Some {
            1int
        } else {
            0int
        }
        &&& self.phase is AtPre ==> self.project@.pre_script is Some
        &&& self.phase is AtPull ==> !self.project@.spec_reset_to_remote()
        &&& self.phase is AtPost ==> spec_post_kind(self.project@, self.main_ok) is Some
        &&& self.phase is AtAlways ==> self.project@.post_always_script is Some
        &&& (self.phase is AtPost || self.phase is AtAlways) ==> self.main_done
        &&& (self.phase is AtFetch || self.phase is AtSync || self.phase is AtPull || self.phase
            is AtPre || self.phase is AtMain) ==> !self.main_done && self.failure is None
        &&& match self.current {
            Some(k) => {
                &&& k == spec_kind_of_phase(self.phase, self.project@, self.main_ok)
                &&& !(self.phase is Finished)
                &&& self.logger.logs@.len() > 0
                &&& self.logger.logs@.last().log_type@ == spec_log_type(k)
                &&& match self.logger.logs@.last().command {
                    Some(c) => c@ == spec_display_of(k, self.project@, self.data.branch@),
                    None => false,
                }
            },
            None => true,
        }
        &&& (self.main_done && self.main_ok) ==> self.failure is None
    }

    /// A machine at the start of the pipeline for one job.
    pub fn new(project: ProjectConfig, data: WebhookData, job_id: String) -> (r: Self)
        ensures
            r.inv(),
            r.project == project,
            r.data == data,
            r.logger.job_id == job_id,
            r.logger.logs@.len() == 0,
            r.phase is AtFetch,
            r.current is None,
            !r.main_done,
            r.all_output@.len() == 0,
            r.failure is None,
    {
        PipelineMachine {
            project,
            data,
            logger: PipelineLogger::new(job_id),
            phase: Phase::AtFetch,
            current: None,
            main_done: false,
            main_ok: false,
            main_exit: 0,
            all_output: String::new(),
            failure: None,
        }
    }

    /// Whether `kind` is a script step whose command line is configured (the
    /// main script always is).
    pub open spec fn spec_script_kind_enabled(proj: ProjectConfigView, kind: StepKind) -> bool {
        match kind {
            StepKind::PreScript => proj.pre_script is Some,
            StepKind::MainScript => true,
            StepKind::PostSuccess => proj.post_success_script is Some,
            StepKind::PostFailure => proj.post_failure_script is Some,
            StepKind::PostScript => proj.post_script is Some,
            StepKind::PostAlways => proj.post_always_script is Some,
            _ => false,
        }
    }

    /// The configured command line for a script step.
    fn script_for_kind(&self, kind: StepKind) -> (r: String)
        requires
            Self::spec_script_kind_enabled(self.project@, kind),
        ensures
            r@ == spec_script_of(self.project@, kind, self.data.branch@),
    {
        match kind {
            StepKind::PreScript => self.project.pre_script.as_ref().unwrap().clone(),
            StepKind::MainScript => self.project.get_run_script_for_branch(
                self.data.branch.as_str(),
            ).to_owned(),
            StepKind::PostSuccess => self.project.post_success_script.as_ref().unwrap().clone(),
            StepKind::PostFailure => self.project.post_failure_script.as_ref().unwrap().clone(),
            StepKind::PostScript => self.project.post_script.as_ref().unwrap().clone(),
            StepKind::PostAlways => self.project.post_always_script.as_ref().unwrap().clone(),
            StepKind::GitFetch => {
                assert(false);
                String::new()
            },
            StepKind::GitReset => {
                assert(false);
                String::new()
            },
            StepKind::GitSwitch => {
                assert(false);
                String::new()
            },
            StepKind::GitPull => {
                assert(false);
                String::new()
            },
        }
    }

    /// Starts the next step of the pipeline: appends its `running` row and
    /// says what to launch. A configured script with no tokens cannot be
    /// launched: its row is recorded as failed at once, the pipeline moves
    /// on as for any failure of that step, and the caller asks again.
    pub fn next_step(&mut self, now: i64) -> (r: NextStep)
        requires
            old(self).inv(),
            old(self).current is None,
            now >= 0,
        ensures
            final(self).inv(),
            final(self).project == old(self).project,
            final(self).data == old(self).data,
            final(self).logger.job_id == old(self).logger.job_id,
            ({
                let proj = old(self).project@;
                let branch = old(self).data.branch@;
                let kind = spec_kind_of_phase(old(self).phase, proj, old(self).main_ok);
                let seqno: int = old(self).logger.logs@.len() as int + 1;
                match r {
                    NextStep::Finished => *final(self) == *old(self) && old(self).phase
                        is Finished,
                    NextStep::Run(cmd) => {
                        &&& !(old(self).phase is Finished)
                        &&& cmd.kind == kind
                        &&& final(self).phase == old(self).phase
                        &&& final(self).current == Some(kind)
                        &&& final(self).main_done == old(self).main_done
                        &&& final(self).main_ok == old(self).main_ok
                        &&& final(self).main_exit == old(self).main_exit
                        &&& final(self).all_output == old(self).all_output
                        &&& final(self).failure == old(self).failure
                        &&& final(self).logger.logs@ == old(self).logger.logs@.push(
                            final(self).logger.logs@.last(),
                        )
                        &&& started_row_view(
                            final(self).logger.logs@.last(),
                            old(self).logger.job_id@,
                            seqno,
                            spec_log_type(kind),
                            spec_display_of(kind, proj, branch),
                            now,
                        )
                        &&& cmd.display@ == spec_display_of(kind, proj, branch)
                        &&& if kind.spec_is_git() {
                            &&& cmd.program@ == "git"@
                            &&& cmd.args.deep_view() == spec_git_args(kind, branch)
                            &&& cmd.env@.len() == 0
                        } else {
                            let toks = spec_split_whitespace(spec_script_of(proj, kind, branch));
                            &&& toks.len() > 0
                            &&& cmd.program@ == toks[0]
                            &&& cmd.args.deep_view() == toks.skip(1)
                            &&& cmd.env.deep_view() == spec_script_env(
                                &old(self).data,
                                spec_env_extra(kind, old(self).main_exit),
                            )
                        }
                    },
                    NextStep::Skipped => {
                        let toks = spec_split_whitespace(spec_script_of(proj, kind, branch));
                        let row = final(self).logger.logs@.last();
                        &&& !(old(self).phase is Finished)
                        &&& !kind.spec_is_git()
                        &&& toks.len() == 0
                        &&& final(self).current is None
                        &&& final(self).all_output == old(self).all_output
                        &&& final(self).logger.logs@.len() == old(self).logger.logs@.len() + 1
                        &&& step_row_view(
                            row,
                            old(self).logger.job_id@,
                            seqno,
                            spec_log_type(kind),
                            spec_display_of(kind, proj, branch),
                            now,
                        )
                        &&& row.status@ == "failed"@
                        &&& row.exit_code == Some(1i32)
                        &&& match row.output {
                            Some(o) => o@ == "Script execution failed: "@
                                + "Script configuration is empty"@,
                            None => false,
                        }
                        &&& if kind is PreScript {
                            &&& final(self).phase is Finished
                            &&& match final(self).failure {
                                Some(e) => e matches CicdError::ScriptExecutionFailed(m) && m@
                                    == "Script configuration is empty"@,
                                None => false,
                            }
                            &&& final(self).main_done == old(self).main_done
                        } else if kind is MainScript {
                            &&& final(self).phase == spec_phase_after_failure(kind, proj)
                            &&& final(self).main_done
                            &&& !final(self).main_ok
                            &&& final(self).main_exit == 1
                            &&& match final(self).failure {
                                Some(e) => e matches CicdError::ScriptExecutionFailed(m) && m@
                                    == "Script configuration is empty"@,
                                None => false,
                            }
                        } else {
                            &&& final(self).phase == spec_phase_after_failure(kind, proj)
                            &&& final(self).failure == old(self).failure
                            &&& final(self).main_done == old(self).main_done
                            &&& final(self).main_ok == old(self).main_ok
                            &&& final(self).main_exit == old(self).main_exit
                        }
                    },
                }
            }),
    {
        let kind: StepKind = match self.phase {
            Phase::Finished => {
                return NextStep::Finished;
            },
            Phase::AtFetch => StepKind::GitFetch,
            Phase::AtSync => if self.project.should_reset_to_remote() {
                StepKind::GitReset
            } else {
                StepKind::GitSwitch
            },
            Phase::AtPull => StepKind::GitPull,
            Phase::AtPre => StepKind::PreScript,
            Phase::AtMain => StepKind::MainScript,
            Phase::AtPost => if self.main_ok {
                if self.project.post_success_script.is_some() {
                    StepKind::PostSuccess
                } else {
                    StepKind::PostScript
                }
            } else {
                if self.project.post_failure_script.is_some() {
                    StepKind::PostFailure
                } else {
                    StepKind::PostScript
                }
            },
            Phase::AtAlways => StepKind::PostAlways,
        };
        assert(kind == spec_kind_of_phase(self.phase, self.project@, self.main_ok));
        let is_git = match kind {
            StepKind::GitFetch => true,
            StepKind::GitReset => true,
            StepKind::GitSwitch => true,
            StepKind::GitPull => true,
            _ => false,
        };
        if is_git {
            let mut args: Vec<String> = Vec::new();
            let mut display: String;
            match kind {
                StepKind::GitFetch => {
                    args.push(String::from_str("fetch"));
                    display = String::from_str("git fetch");
                },
                StepKind::GitReset => {
                    args.push(String::from_str("reset"));
                    args.push(String::from_str("--hard"));
                    let mut target = String::from_str("origin/");
                    target.append(self.data.branch.as_str());
                    args.push(target);
                    display = String::from_str("git reset --hard origin/");
                    display.append(self.data.branch.as_str());
                },
                StepKind::GitSwitch => {
                    args.push(String::from_str("switch"));
                    args.push(self.data.branch.clone());
                    display = String::from_str("git switch ");
                    display.append(self.data.branch.as_str());
                },
                _ => {
                    args.push(String::from_str("pull"));
                    display = String::from_str("git pull");
                },
            }
            proof {
                assert(args.deep_view() =~= spec_git_args(
                    kind,
                    self.data.branch@,
                ));
            }
            self.logger.start_step(kind.log_type(), Some(display.clone()), now);
            self.current = Some(kind);
            NextStep::Run(
                StepCommand {
                    kind,
                    program: String::from_str("git"),
                    args,
                    env: Vec::new(),
                    display,
                },
            )
        } else {
            let script = self.script_for_kind(kind);
            let mut toks = split_whitespace_tokens(script.as_str());
            if toks.len() == 0 {
                self.logger.start_step(kind.log_type(), Some(script.clone()), now);
                let err = CicdError::ScriptExecutionFailed(
                    String::from_str("Script configuration is empty"),
                );
                let row_out = err.message();
                self.logger.fail_step(row_out, 1, now);
                match kind {
                    StepKind::PreScript => {
                        self.failure = Some(err);
                        self.phase = Phase::Finished;
                    },
                    StepKind::MainScript => {
                        self.main_done = true;
                        self.main_ok = false;
                        self.main_exit = 1;
                        self.failure = Some(err);
                        self.phase = self.phase_after_main_failure();
                    },
                    StepKind::PostAlways => {
                        self.phase = Phase::Finished;
                    },
                    _ => {
                        self.phase = self.phase_after_post();
                    },
                }
                return NextStep::Skipped;
            }
            let program = toks.remove(0);
            let ghost toks_spec = spec_split_whitespace(
                spec_script_of(self.project@, kind, self.data.branch@),
            );
            proof {
                assert(toks.deep_view() =~= toks_spec.skip(1));
            }
            let extra: Option<(&str, String)> = match kind {
                StepKind::PostSuccess | StepKind::PostFailure | StepKind::PostScript
                    | StepKind::PostAlways => Some(
                    ("CICD_MAIN_SCRIPT_EXIT_CODE", i64_to_string(self.main_exit as i64)),
                ),
                _ => None,
            };
            let env = build_env(&self.data, extra);
            self.logger.start_step(kind.log_type(), Some(script.clone()), now);
            self.current = Some(kind);
            NextStep::Run(StepCommand { kind, program, args: toks, env, display: script })
        }
    }

    /// The phase after a failed main script, computed from the
    /// configuration.
    fn phase_after_main_failure(&self) -> (r: Phase)
        ensures
            r == spec_phase_after_failure(StepKind::MainScript, self.project@),
    {
        if self.project.post_failure_script.is_some() || self.project.post_script.is_some() {
            Phase::AtPost
        } else if self.project.post_always_script.is_some() {
            Phase::AtAlways
        } else {
            Phase::Finished
        }
    }

    /// The phase after a post hook's place, computed from the
    /// configuration.
    fn phase_after_post(&self) -> (r: Phase)
        ensures
            r == spec_after_post(self.project@),
    {
        if self.project.post_always_script.is_some() {
            Phase::AtAlways
        } else {
            Phase::Finished
        }
    }

    /// What became of the outcome of one step: whether it succeeded.
    pub open spec fn spec_outcome_success(o: StepOutcome) -> bool {
        match o {
            StepOutcome::Exited { exit_code, .. } => exit_code == Some(0i32),
            StepOutcome::SpawnFailed { .. } => false,
        }
    }

    /// The output a step's streams combine to; a process that never started
    /// captured nothing.
    pub open spec fn spec_outcome_combined(k: StepKind, o: StepOutcome) -> Seq<char> {
        match o {
            StepOutcome::Exited { stdout, stderr, .. } => if k.spec_is_git() {
                spec_git_combined(stdout@, stderr@)
            } else {
                spec_script_combined(stdout@, stderr@)
            },
            StepOutcome::SpawnFailed { .. } => Seq::empty(),
        }
    }

    /// The exit code a failed step's row records: a git command's own code
    /// (-1 when it never ran or died of a signal), the main script's own
    /// code likewise (1 when it never started), and 1 for hooks.
    pub open spec fn spec_fail_exit_code(k: StepKind, o: StepOutcome) -> int {
        if k.spec_is_git() {
            match o {
                StepOutcome::Exited { exit_code, .. } => match exit_code {
                    Some(c) => c as int,
                    None => -1,
                },
                StepOutcome::SpawnFailed { .. } => -1,
            }
        } else if k is MainScript {
            match o {
                StepOutcome::Exited { exit_code, .. } => match exit_code {
                    Some(c) => c as int,
                    None => -1,
                },
                StepOutcome::SpawnFailed { .. } => 1,
            }
        } else {
            1
        }
    }

    /// The failure summary of a git step that failed.
    pub open spec fn spec_git_error_message(o: StepOutcome) -> Seq<char> {
        match o {
            StepOutcome::SpawnFailed { message } => "Failed to start git process: "@ + message@,
            StepOutcome::Exited { stdout, stderr, .. } => spec_trim(
                spec_git_combined(stdout@, stderr@),
            ),
        }
    }

    /// The failure summary of a script step that failed.
    pub open spec fn spec_script_error_message(
        k: StepKind,
        proj: ProjectConfigView,
        branch: Seq<char>,
        o: StepOutcome,
    ) -> Seq<char> {
        let cmdline = spec_join_spaces(spec_split_whitespace(spec_script_of(proj, k, branch)));
        match o {
            StepOutcome::SpawnFailed { message } => spec_spawn_fail_message(cmdline, message@),
            StepOutcome::Exited { exit_code, stdout, stderr } => spec_exit_fail_message(
                cmdline,
                match exit_code {
                    Some(c) => c as int,
                    None => -1,
                },
                spec_script_combined(stdout@, stderr@),
            ),
        }
    }

    /// The output a failed step's row records: a git step keeps what it
    /// captured (or why it never started); a script step records the
    /// failure summary.
    pub open spec fn spec_row_fail_output(
        k: StepKind,
        proj: ProjectConfigView,
        branch: Seq<char>,
        o: StepOutcome,
    ) -> Seq<char> {
        if k.spec_is_git() {
            match o {
                StepOutcome::Exited { stdout, stderr, .. } => spec_git_combined(stdout@, stderr@),
                StepOutcome::SpawnFailed { .. } => Self::spec_git_error_message(o),
            }
        } else {
            "Script execution failed: "@ + Self::spec_script_error_message(k, proj, branch, o)
        }
    }

    /// Records what became of the running step: finalizes its row and moves
    /// the pipeline on. A failed git or pre step ends it; a failed main
    /// script records the job's failure but still reaches its post hooks;
    /// failed hooks change nothing further.
    pub fn finish_step(&mut self, outcome: StepOutcome, now: i64)
        requires
            old(self).inv(),
            old(self).current is Some,
            now >= 0,
        ensures
            final(self).inv(),
            final(self).project == old(self).project,
            final(self).data == old(self).data,
            final(self).logger.job_id == old(self).logger.job_id,
            final(self).current is None,
            final(self).logger.logs@.len() == old(self).logger.logs@.len(),
            final(self).logger.logs@ == old(self).logger.logs@.update(
                old(self).logger.logs@.len() - 1,
                final(self).logger.logs@.last(),
            ),
            ({
                let proj = old(self).project@;
                let branch = old(self).data.branch@;
                let k = old(self).current->Some_0;
                let row = final(self).logger.logs@.last();
                let prev = old(self).logger.logs@.last();
                let combined = Self::spec_outcome_combined(k, outcome);
                if Self::spec_outcome_success(outcome) {
                    &&& finished_row_view(row, prev, combined, 0, "success"@, now)
                    &&& final(self).phase == spec_phase_after_success(k, proj)
                    &&& final(self).all_output@ == old(self).all_output@ + combined
                    &&& final(self).failure == old(self).failure
                    &&& if k is MainScript {
                        final(self).main_done && final(self).main_ok && final(self).main_exit == 0
                    } else {
                        final(self).main_done == old(self).main_done && final(self).main_ok == old(
                            self,
                        ).main_ok && final(self).main_exit == old(self).main_exit
                    }
                } else {
                    &&& finished_row_view(
                        row,
                        prev,
                        Self::spec_row_fail_output(k, proj, branch, outcome),
                        Self::spec_fail_exit_code(k, outcome),
                        "failed"@,
                        now,
                    )
                    &&& final(self).phase == spec_phase_after_failure(k, proj)
                    &&& final(self).all_output == old(self).all_output
                    &&& if k.spec_is_git() {
                        &&& match final(self).failure {
                            Some(e) => e matches CicdError::GitOperationFailed {
                                operation,
                                message,
                            } && operation@ == spec_display_of(k, proj, branch) && message@
                                == Self::spec_git_error_message(outcome),
                            None => false,
                        }
                        &&& final(self).main_done == old(self).main_done
                    } else if k is PreScript {
                        &&& match final(self).failure {
                            Some(e) => e matches CicdError::ScriptExecutionFailed(m) && m@
                                == Self::spec_script_error_message(k, proj, branch, outcome),
                            None => false,
                        }
                        &&& final(self).main_done == old(self).main_done
                    } else if k is MainScript {
                        &&& match final(self).failure {
                            Some(e) => e matches CicdError::ScriptExecutionFailed(m) && m@
                                == Self::spec_script_error_message(k, proj, branch, outcome),
                            None => false,
                        }
                        &&& final(self).main_done
                        &&& !final(self).main_ok
                        &&& final(self).main_exit == Self::spec_fail_exit_code(k, outcome)
                    } else {
                        &&& final(self).failure == old(self).failure
                        &&& final(self).main_done == old(self).main_done
                        &&& final(self).main_ok == old(self).main_ok
                        &&& final(self).main_exit == old(self).main_exit
                    }
                }
            }),
    {
        let kind = self.current.unwrap();
        self.current = None;
        let is_git = match kind {
            StepKind::GitFetch => true,
            StepKind::GitReset => true,
            StepKind::GitSwitch => true,
            StepKind::GitPull => true,
            _ => false,
        };
        if is_git {
            let operation = self.logger.last_log().command.as_ref().unwrap().clone();
            match outcome {
                StepOutcome::Exited { exit_code, stdout, stderr } => {
                    let combined = git_combined(stdout.as_str(), stderr.as_str());
                    if exit_code == Some(0i32) {
                        self.logger.complete_step(combined.clone(), 0, now);
                        self.all_output.append(combined.as_str());
                        self.phase = self.phase_after_success_of(kind);
                    } else {
                        let code: i32 = match exit_code {
                            Some(c) => c,
                            None => -1,
                        };
                        let message = trim_str(combined.as_str());
                        self.logger.fail_step(combined, code, now);
                        self.failure = Some(CicdError::GitOperationFailed { operation, message });
                        self.phase = Phase::Finished;
                    }
                },
                StepOutcome::SpawnFailed { message } => {
                    let mut m = String::from_str("Failed to start git process: ");
                    m.append(message.as_str());
                    proof {
                        assert(m@ =~= "Failed to start git process: "@ + message@);
                    }
                    self.logger.fail_step(m.clone(), -1, now);
                    self.failure = Some(CicdError::GitOperationFailed { operation, message: m });
                    self.phase = Phase::Finished;
                },
            }
        } else {
            proof {
                assert(Self::spec_script_kind_enabled(self.project@, kind));
            }
            let script = self.script_for_kind(kind);
            let toks = split_whitespace_tokens(script.as_str());
            let cmdline = join_spaces(&toks);
            let fail_code: i32 = match kind {
                StepKind::MainScript => match &outcome {
                    StepOutcome::Exited { exit_code, .. } => match exit_code {
                        Some(c) => *c,
                        None => -1,
                    },
                    StepOutcome::SpawnFailed { .. } => 1,
                },
                _ => 1,
            };
            match script_outcome(cmdline.as_str(), outcome) {
                Ok(res) => {
                    self.logger.complete_step(res.output.clone(), 0, now);
                    self.all_output.append(res.output.as_str());
                    if let StepKind::MainScript = kind {
                        self.main_done = true;
                        self.main_ok = true;
                        self.main_exit = 0;
                    }
                    self.phase = self.phase_after_success_of(kind);
                },
                Err(e) => {
                    let row_out = e.message();
                    self.logger.fail_step(row_out, fail_code, now);
                    match kind {
                        StepKind::PreScript => {
                            self.failure = Some(e);
                            self.phase = Phase::Finished;
                        },
                        StepKind::MainScript => {
                            self.main_done = true;
                            self.main_ok = false;
                            self.main_exit = fail_code;
                            self.failure = Some(e);
                            self.phase = self.phase_after_main_failure();
                        },
                        StepKind::PostAlways => {
                            self.phase = Phase::Finished;
                        },
                        _ => {
                            self.phase = self.phase_after_post();
                        },
                    }
                },
            }
        }
    }

    /// The phase a successful step of `kind` leads to, computed from the
    /// configuration.
    fn phase_after_success_of(&self, kind: StepKind) -> (r: Phase)
        ensures
            r == spec_phase_after_success(kind, self.project@),
    {
        match kind {
            StepKind::GitFetch => Phase::AtSync,
            StepKind::GitSwitch => Phase::AtPull,
            StepKind::GitReset | StepKind::GitPull => if self.project.pre_script.is_some() {
                Phase::AtPre
            } else {
                Phase::AtMain
            },
            StepKind::PreScript => Phase::AtMain,
            StepKind::MainScript => if self.project.post_success_script.is_some()
                || self.project.post_script.is_some() {
                Phase::AtPost
            } else if self.project.post_always_script.is_some() {
                Phase::AtAlways
            } else {
                Phase::Finished
            },
            StepKind::PostSuccess | StepKind::PostFailure | StepKind::PostScript => {
                if self.project.post_always_script.is_some() {
                    Phase::AtAlways
                } else {
                    Phase::Finished
                }
            },
            StepKind::PostAlways => Phase::Finished,
        }
    }

    /// The job's outcome once the pipeline is finished: the recorded fatal
    /// failure, or the concatenated output of every successful step.
    pub fn into_result(self) -> (r: Result<String, CicdError>)
        requires
            self.inv(),
            self.phase is Finished,
            self.current is None,
        ensures
            r is Err <==> self.failure is Some,
            match r {
                Err(e) => self.failure == Some(e),
                Ok(o) => o == self.all_output,
            },
    {
        match self.failure {
            Some(e) => Err(e),
            None => Ok(self.all_output),
        }
    }
}

/// The steps a pipeline would attempt for this configuration, were every
/// one to succeed.
pub open spec fn spec_planned_kinds(proj: ProjectConfigView) -> Seq<StepKind> {
    let a = seq![StepKind::GitFetch];
    let b = if proj.spec_reset_to_remote() {
        a.push(StepKind::GitReset)
    } else {
        a.push(StepKind::GitSwitch).push(StepKind::GitPull)
    };
    let c = if proj.pre_script is Some {
        b.push(StepKind::PreScript)
    } else {
        b
    };
    let d = c.push(StepKind::MainScript);
    let e = match spec_post_kind(proj, true) {
        Some(k) => d.push(k),
        None => d,
    };
    if proj.post_always_script is Some {
        e.push(StepKind::PostAlways)
    } else {
        e
    }
}

/// A dry run's row for one planned step: skipped, with exit code zero and
/// the literal output, completed the moment it was written.
pub open spec fn spec_skipped_row(
    row: crate::pipeline::JobLog,
    job_id: Seq<char>,
    seqno: int,
    kind: StepKind,
    proj: ProjectConfigView,
    branch: Seq<char>,
    now: i64,
) -> bool {
    &&& step_row_view(row, job_id, seqno, spec_log_type(kind), spec_display_of(kind, proj, branch), now)
    &&& row.status@ == "skipped"@
    &&& row.exit_code == Some(0i32)
    &&& row.duration_ms == Some(0i64)
    &&& row.completed_at == Some(now)
    &&& match row.output {
        Some(o) => o@ == "[DRY_RUN] Skipped"@,
        None => false,
    }
}

/// The steps the pipeline would attempt, in order.
fn planned_kinds(project: &ProjectConfig) -> (r: Vec<StepKind>)
    ensures
        r@ == spec_planned_kinds(project@),
{
    let mut kinds: Vec<StepKind> = Vec::new();
    kinds.push(StepKind::GitFetch);
    if project.should_reset_to_remote() {
        kinds.push(StepKind::GitReset);
    } else {
        kinds.push(StepKind::GitSwitch);
        kinds.push(StepKind::GitPull);
    }
    if project.pre_script.is_some() {
        kinds.push(StepKind::PreScript);
    }
    kinds.push(StepKind::MainScript);
    if project.post_success_script.is_some() {
        kinds.push(StepKind::PostSuccess);
    } else if project.post_script.is_some() {
        kinds.push(StepKind::PostScript);
    }
    if project.post_always_script.is_some() {
        kinds.push(StepKind::PostAlways);
    }
    proof {
        assert(kinds@ =~= spec_planned_kinds(project@));
    }
    kinds
}

/// The command line a step's row records, rendered for one step.
fn display_of(kind: StepKind, project: &ProjectConfig, data: &WebhookData) -> (r: String)
    requires
        kind.spec_is_git() || PipelineMachine::spec_script_kind_enabled(project@, kind),
    ensures
        r@ == spec_display_of(kind, project@, data.branch@),
{
    match kind {
        StepKind::GitFetch => String::from_str("git fetch"),
        StepKind::GitReset => {
            let mut d = String::from_str("git reset --hard origin/");
            d.append(data.branch.as_str());
            d
        },
        StepKind::GitSwitch => {
            let mut d = String::from_str("git switch ");
            d.append(data.branch.as_str());
            d
        },
        StepKind::GitPull => String::from_str("git pull"),
        StepKind::PreScript => project.pre_script.as_ref().unwrap().clone(),
        StepKind::MainScript => project.get_run_script_for_branch(data.branch.as_str()).to_owned(),
        StepKind::PostSuccess => project.post_success_script.as_ref().unwrap().clone(),
        StepKind::PostFailure => project.post_failure_script.as_ref().unwrap().clone(),
        StepKind::PostScript => project.post_script.as_ref().unwrap().clone(),
        StepKind::PostAlways => project.post_always_script.as_ref().unwrap().clone(),
    }
}

/// The rows a dry run writes instead of executing: one `skipped` row per
/// step the pipeline would have attempted, with the dense sequences 1..N.
pub fn dry_run_logs(project: &ProjectConfig, data: &WebhookData, job_id: &str, now: i64) -> (r:
    Vec<crate::pipeline::JobLog>)
    requires
        now >= 0,
    ensures
        r@.len() == spec_planned_kinds(project@).len(),
        forall|i: int|
            0 <= i < r@.len() ==> spec_skipped_row(
                #[trigger] r@[i],
                job_id@,
                i + 1,
                spec_planned_kinds(project@)[i],
                project@,
                data.branch@,
                now,
            ),
{
    let kinds = planned_kinds(project);
    let n = kinds.len();
    let mut rows: Vec<crate::pipeline::JobLog> = Vec::new();
    let mut i: usize = 0;
    proof {
        assert(spec_planned_kinds(project@).len() <= 7);
    }
    while i < n
        invariant
            n == kinds@.len(),
            kinds@ == spec_planned_kinds(project@),
            n <= 7,
            i <= n,
            rows@.len() == i,
            forall|j: int|
                0 <= j < i ==> spec_skipped_row(
                    #[trigger] rows@[j],
                    job_id@,
                    j + 1,
                    spec_planned_kinds(project@)[j],
                    project@,
                    data.branch@,
                    now,
                ),
        decreases n - i,
    {
        let kind = kinds[i];
        proof {
            lemma_planned_kind_enabled(project@, i as int);
        }
        let display = display_of(kind, project, data);
        let row = crate::pipeline::JobLog {
            id: None,
            job_id: job_id.to_owned(),
            sequence: (i + 1) as i32,
            log_type: kind.log_type(),
            command: Some(display),
            started_at: now,
            completed_at: Some(now),
            duration_ms: Some(0),
            exit_code: Some(0),
            output: Some(String::from_str("[DRY_RUN] Skipped")),
            status: crate::pipeline::skipped_str(),
        };
        rows.push(row);
        i += 1;
    }
    rows
}

/// Law: hook failures do not propagate. A step that is not fatal moves the
/// pipeline to the same phase whether it failed or succeeded.
pub proof fn lemma_hook_failure_not_fatal(k: StepKind, proj: ProjectConfigView)
    requires
        !k.spec_is_fatal(),
    ensures
        spec_phase_after_failure(k, proj) == spec_phase_after_success(k, proj),
{
}

/// Every planned step is a git step or a configured script step.
proof fn lemma_planned_kind_enabled(proj: ProjectConfigView, i: int)
    requires
        0 <= i < spec_planned_kinds(proj).len(),
    ensures
        spec_planned_kinds(proj)[i].spec_is_git() || PipelineMachine::spec_script_kind_enabled(
            proj,
            spec_planned_kinds(proj)[i],
        ),
{
}

/// The synthesized output a dry run leaves on the job: which project and
/// branch it would have built, and from which commit.
pub open spec fn spec_dry_run_summary(
    project_name: Seq<char>,
    branch: Seq<char>,
    sha: Option<Seq<char>>,
    message: Option<Seq<char>>,
    author: Option<Seq<char>>,
) -> Seq<char> {
    "[DRY_RUN] Pipeline simulation for project '"@ + project_name + "' branch '"@ + branch
        + "'

Webhook data:
- Commit SHA: "@ + spec_or_none(sha) + "
- Commit message: "@
        + spec_or_none(message) + "
- Author: "@ + spec_or_none(author)
        + "

No actual commands were executed. See Timeline for details."@
}

/// A value, or the marker for an absent one.
pub open spec fn spec_or_none(v: Option<Seq<char>>) -> Seq<char> {
    match v {
        Some(s) => s,
        None => "(none)"@,
    }
}

fn append_or_none(s: &mut String, v: &Option<String>)
    ensures
        final(s)@ == old(s)@ + spec_or_none(match v {
            Some(x) => Some(x@),
            None => None,
        }),
{
    match v {
        Some(x) => s.append(x.as_str()),
        None => s.append("(none)"),
    }
}

/// Renders the synthesized output a dry run leaves on the job.
pub fn dry_run_summary(data: &WebhookData) -> (r: String)
    ensures
        r@ == spec_dry_run_summary(
            data.project_name@,
            data.branch@,
            match data.commit_sha {
                Some(s) => Some(s@),
                None => None,
            },
            match data.commit_message {
                Some(s) => Some(s@),
                None => None,
            },
            match data.commit_author_name {
                Some(s) => Some(s@),
                None => None,
            },
        ),
{
    let mut s = String::from_str("[DRY_RUN] Pipeline simulation for project '");
    s.append(data.project_name.as_str());
    s.append("' branch '");
    s.append(data.branch.as_str());
    s.append("'

Webhook data:
- Commit SHA: ");
    append_or_none(&mut s, &data.commit_sha);
    s.append("
- Commit message: ");
    append_or_none(&mut s, &data.commit_message);
    s.append("
- Author: ");
    append_or_none(&mut s, &data.commit_author_name);
    s.append("

No actual commands were executed. See Timeline for details.");
    proof {
        assert(s@ =~= spec_dry_run_summary(
            data.project_name@,
            data.branch@,
            match data.commit_sha {
                Some(x) => Some(x@),
                None => None,
            },
            match data.commit_message {
                Some(x) => Some(x@),
                None => None,
            },
            match data.commit_author_name {
                Some(x) => Some(x@),
                None => None,
            },
        ));
    }
    s
}

} // verus!
