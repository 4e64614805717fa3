use simple_git_cicd::config::ProjectConfig;
use simple_git_cicd::error::CicdError;
use simple_git_cicd::runner::{NextStep, PipelineMachine, StepCommand, StepKind, StepOutcome};
use simple_git_cicd::webhook::WebhookData;

fn demo_project() -> ProjectConfig {
    ProjectConfig {
        name: "demo".to_string(),
        repo_path: "/srv/demo".to_string(),
        branches: vec!["main".to_string()],
        run_script: "echo hi".to_string(),
        branch_scripts: None,
        with_webhook_secret: None,
        webhook_secret: None,
        reset_to_remote: Some(true),
        pre_script: None,
        post_script: None,
        post_success_script: None,
        post_failure_script: None,
        post_always_script: None,
        rate_limit_requests: None,
        rate_limit_window_seconds: None,
    }
}

fn demo_data() -> WebhookData {
    WebhookData::minimal("demo".to_string(), "main".to_string(), "/srv/demo".to_string())
}

fn machine(project: ProjectConfig) -> PipelineMachine {
    PipelineMachine::new(project, demo_data(), "job-1".to_string())
}

fn run_expect(m: &mut PipelineMachine, now: i64) -> StepCommand {
    match m.next_step(now) {
        NextStep::Run(cmd) => cmd,
        NextStep::Skipped => panic!("unexpected skipped step"),
        NextStep::Finished => panic!("pipeline finished early"),
    }
}

fn ok_exit(stdout: &str) -> StepOutcome {
    StepOutcome::Exited { exit_code: Some(0), stdout: stdout.to_string(), stderr: String::new() }
}

fn failed_exit(code: i32, stderr: &str) -> StepOutcome {
    StepOutcome::Exited { exit_code: Some(code), stdout: String::new(), stderr: stderr.to_string() }
}

#[test]
fn happy_path_runs_fetch_reset_main() {
    let mut m = machine(demo_project());

    let cmd = run_expect(&mut m, 10);
    assert_eq!(cmd.kind, StepKind::GitFetch);
    assert_eq!(cmd.program, "git");
    assert_eq!(cmd.args, vec!["fetch".to_string()]);
    assert_eq!(cmd.display, "git fetch");
    assert!(cmd.env.is_empty());
    m.finish_step(ok_exit(""), 11);

    let cmd = run_expect(&mut m, 12);
    assert_eq!(cmd.kind, StepKind::GitReset);
    assert_eq!(
        cmd.args,
        vec!["reset".to_string(), "--hard".to_string(), "origin/main".to_string()]
    );
    assert_eq!(cmd.display, "git reset --hard origin/main");
    m.finish_step(ok_exit(""), 13);

    let cmd = run_expect(&mut m, 14);
    assert_eq!(cmd.kind, StepKind::MainScript);
    assert_eq!(cmd.program, "echo");
    assert_eq!(cmd.args, vec!["hi".to_string()]);
    assert_eq!(cmd.display, "echo hi");
    assert!(cmd.env.iter().any(|(k, v)| k == "CICD_PROJECT_NAME" && v == "demo"));
    assert!(cmd.env.iter().any(|(k, v)| k == "CICD_BRANCH" && v == "main"));
    assert!(cmd.env.iter().any(|(k, v)| k == "CICD_REPO_PATH" && v == "/srv/demo"));
    m.finish_step(ok_exit("hi\n"), 15);

    assert!(matches!(m.next_step(16), NextStep::Finished));

    let types: Vec<&str> = m.logger.logs.iter().map(|l| l.log_type.as_str()).collect();
    assert_eq!(types, vec!["git_fetch", "git_reset", "main_script"]);
    for (i, row) in m.logger.logs.iter().enumerate() {
        assert_eq!(row.sequence, (i + 1) as i32);
        assert_eq!(row.status, "success");
        assert_eq!(row.exit_code, Some(0));
        assert_eq!(row.job_id, "job-1");
        assert!(row.completed_at.is_some());
        assert!(row.duration_ms.is_some());
    }
    let out = m.into_result().expect("pipeline succeeded");
    assert!(out.contains("hi"));
}

#[test]
fn main_failure_runs_post_failure_and_post_always() {
    let mut p = demo_project();
    p.run_script = "false".to_string();
    p.post_failure_script = Some("echo boom".to_string());
    p.post_always_script = Some("echo done".to_string());
    let mut m = machine(p);

    assert_eq!(run_expect(&mut m, 1).kind, StepKind::GitFetch);
    m.finish_step(ok_exit(""), 2);
    assert_eq!(run_expect(&mut m, 3).kind, StepKind::GitReset);
    m.finish_step(ok_exit(""), 4);

    let cmd = run_expect(&mut m, 5);
    assert_eq!(cmd.kind, StepKind::MainScript);
    assert_eq!(cmd.program, "false");
    m.finish_step(failed_exit(1, ""), 6);

    let cmd = run_expect(&mut m, 7);
    assert_eq!(cmd.kind, StepKind::PostFailure);
    assert!(cmd.env.iter().any(|(k, v)| k == "CICD_MAIN_SCRIPT_EXIT_CODE" && v == "1"));
    m.finish_step(ok_exit("boom\n"), 8);

    let cmd = run_expect(&mut m, 9);
    assert_eq!(cmd.kind, StepKind::PostAlways);
    m.finish_step(ok_exit("done\n"), 10);

    assert!(matches!(m.next_step(11), NextStep::Finished));

    let rows: Vec<(&str, &str, Option<i32>)> = m
        .logger
        .logs
        .iter()
        .map(|l| (l.log_type.as_str(), l.status.as_str(), l.exit_code))
        .collect();
    assert_eq!(
        rows,
        vec![
            ("git_fetch", "success", Some(0)),
            ("git_reset", "success", Some(0)),
            ("main_script", "failed", Some(1)),
            ("post_failure", "success", Some(0)),
            ("post_always", "success", Some(0)),
        ]
    );

    let err = m.into_result().expect_err("main failed");
    let msg = err.message();
    assert!(msg.contains("failed with exit code 1"), "{}", msg);
}

#[test]
fn switch_mode_pulls_after_switching() {
    let mut p = demo_project();
    p.reset_to_remote = Some(false);
    let mut m = machine(p);

    assert_eq!(run_expect(&mut m, 1).kind, StepKind::GitFetch);
    m.finish_step(ok_exit(""), 2);
    let cmd = run_expect(&mut m, 3);
    assert_eq!(cmd.kind, StepKind::GitSwitch);
    assert_eq!(cmd.args, vec!["switch".to_string(), "main".to_string()]);
    m.finish_step(ok_exit(""), 4);
    let cmd = run_expect(&mut m, 5);
    assert_eq!(cmd.kind, StepKind::GitPull);
    assert_eq!(cmd.args, vec!["pull".to_string()]);
    m.finish_step(ok_exit(""), 6);
    assert_eq!(run_expect(&mut m, 7).kind, StepKind::MainScript);
    m.finish_step(ok_exit("hi\n"), 8);
    assert!(matches!(m.next_step(9), NextStep::Finished));
    assert!(m.into_result().is_ok());
}

#[test]
fn git_failure_is_fatal_and_skips_the_rest() {
    let mut p = demo_project();
    p.post_failure_script = Some("echo boom".to_string());
    let mut m = machine(p);

    assert_eq!(run_expect(&mut m, 1).kind, StepKind::GitFetch);
    m.finish_step(failed_exit(128, "fatal: no remote\n"), 2);
    assert!(matches!(m.next_step(3), NextStep::Finished));

    assert_eq!(m.logger.logs.len(), 1);
    assert_eq!(m.logger.logs[0].status, "failed");
    assert_eq!(m.logger.logs[0].exit_code, Some(128));

    match m.into_result() {
        Err(CicdError::GitOperationFailed { operation, message }) => {
            assert_eq!(operation, "git fetch");
            assert_eq!(message, "fatal: no remote");
        }
        other => panic!("expected a git failure, got {:?}", other),
    }
}

#[test]
fn git_spawn_failure_finalizes_the_row() {
    let mut m = machine(demo_project());
    run_expect(&mut m, 1);
    m.finish_step(StepOutcome::SpawnFailed { message: "No such file or directory".to_string() }, 2);
    assert!(matches!(m.next_step(3), NextStep::Finished));
    assert_eq!(m.logger.logs[0].status, "failed");
    assert_eq!(m.logger.logs[0].exit_code, Some(-1));
    let err = m.into_result().expect_err("spawn failed");
    assert!(err.message().contains("Failed to start git process"));
}

#[test]
fn pre_failure_stops_before_main_and_hooks() {
    let mut p = demo_project();
    p.pre_script = Some("false".to_string());
    p.post_failure_script = Some("echo boom".to_string());
    p.post_always_script = Some("echo done".to_string());
    let mut m = machine(p);

    run_expect(&mut m, 1);
    m.finish_step(ok_exit(""), 2);
    run_expect(&mut m, 3);
    m.finish_step(ok_exit(""), 4);
    let cmd = run_expect(&mut m, 5);
    assert_eq!(cmd.kind, StepKind::PreScript);
    m.finish_step(failed_exit(1, "pre broke\n"), 6);
    assert!(matches!(m.next_step(7), NextStep::Finished));
    let types: Vec<&str> = m.logger.logs.iter().map(|l| l.log_type.as_str()).collect();
    assert_eq!(types, vec!["git_fetch", "git_reset", "pre_script"]);
    assert!(m.into_result().is_err());
}

#[test]
fn post_failure_does_not_change_the_outcome() {
    let mut p = demo_project();
    p.post_success_script = Some("false".to_string());
    let mut m = machine(p);

    run_expect(&mut m, 1);
    m.finish_step(ok_exit(""), 2);
    run_expect(&mut m, 3);
    m.finish_step(ok_exit(""), 4);
    let cmd = run_expect(&mut m, 5);
    assert_eq!(cmd.kind, StepKind::MainScript);
    m.finish_step(ok_exit("hi\n"), 6);
    let cmd = run_expect(&mut m, 7);
    assert_eq!(cmd.kind, StepKind::PostSuccess);
    assert!(cmd.env.iter().any(|(k, v)| k == "CICD_MAIN_SCRIPT_EXIT_CODE" && v == "0"));
    m.finish_step(failed_exit(1, "hook broke\n"), 8);
    assert!(matches!(m.next_step(9), NextStep::Finished));
    assert!(m.into_result().is_ok());
}

#[test]
fn post_script_is_the_fallback_hook() {
    let mut p = demo_project();
    p.post_script = Some("echo any".to_string());
    let mut m = machine(p);
    run_expect(&mut m, 1);
    m.finish_step(ok_exit(""), 2);
    run_expect(&mut m, 3);
    m.finish_step(ok_exit(""), 4);
    run_expect(&mut m, 5);
    m.finish_step(ok_exit("hi\n"), 6);
    let cmd = run_expect(&mut m, 7);
    assert_eq!(cmd.kind, StepKind::PostScript);
    m.finish_step(ok_exit("any\n"), 8);
    assert!(matches!(m.next_step(9), NextStep::Finished));
}

#[test]
fn empty_main_script_fails_without_spawning() {
    let mut p = demo_project();
    p.run_script = "   ".to_string();
    let mut m = machine(p);
    run_expect(&mut m, 1);
    m.finish_step(ok_exit(""), 2);
    run_expect(&mut m, 3);
    m.finish_step(ok_exit(""), 4);
    match m.next_step(5) {
        NextStep::Skipped => {}
        other => panic!("expected the empty script to be skipped, got {:?}", step_name(&other)),
    }
    assert!(matches!(m.next_step(6), NextStep::Finished));
    let last = m.logger.logs.last().unwrap();
    assert_eq!(last.log_type, "main_script");
    assert_eq!(last.status, "failed");
    assert_eq!(last.exit_code, Some(1));
    let err = m.into_result().expect_err("empty script fails");
    assert!(err.message().contains("Script configuration is empty"));
}

fn step_name(s: &NextStep) -> &'static str {
    match s {
        NextStep::Run(_) => "run",
        NextStep::Skipped => "skipped",
        NextStep::Finished => "finished",
    }
}

#[test]
fn script_stderr_is_appended_after_stdout() {
    let mut m = machine(demo_project());
    run_expect(&mut m, 1);
    m.finish_step(ok_exit(""), 2);
    run_expect(&mut m, 3);
    m.finish_step(ok_exit(""), 4);
    run_expect(&mut m, 5);
    m.finish_step(
        StepOutcome::Exited {
            exit_code: Some(0),
            stdout: "out".to_string(),
            stderr: "err".to_string(),
        },
        6,
    );
    let last = m.logger.logs.last().unwrap();
    assert_eq!(last.output.as_deref(), Some("out\nerr"));
}
