use simple_git_cicd::config::{CICDConfig, ProjectConfig};
use simple_git_cicd::intake::{IntakeDecision, handle_push};
use simple_git_cicd::job::JobStatus;
use simple_git_cicd::rate_limit::RateLimiter;
use simple_git_cicd::runner::{dry_run_logs, dry_run_summary};
use simple_git_cicd::webhook::WebhookData;

fn demo_project() -> ProjectConfig {
    ProjectConfig {
        name: "demo".to_string(),
        repo_path: "/srv/demo".to_string(),
        branches: vec!["main".to_string()],
        run_script: "echo hi".to_string(),
        branch_scripts: None,
        with_webhook_secret: None,
        webhook_secret: None,
        reset_to_remote: Some(true),
        pre_script: None,
        post_script: None,
        post_success_script: None,
        post_failure_script: None,
        post_always_script: None,
        rate_limit_requests: None,
        rate_limit_window_seconds: None,
    }
}

fn demo_data() -> WebhookData {
    WebhookData::minimal("demo".to_string(), "main".to_string(), "/srv/demo".to_string())
}

#[test]
fn dry_run_writes_one_skipped_row_per_planned_step() {
    let rows = dry_run_logs(&demo_project(), &demo_data(), "job-7", 1_000);
    let types: Vec<&str> = rows.iter().map(|r| r.log_type.as_str()).collect();
    assert_eq!(types, vec!["git_fetch", "git_reset", "main_script"]);
    for (i, row) in rows.iter().enumerate() {
        assert_eq!(row.sequence, (i + 1) as i32);
        assert_eq!(row.status, "skipped");
        assert_eq!(row.exit_code, Some(0));
        assert_eq!(row.output.as_deref(), Some("[DRY_RUN] Skipped"));
        assert_eq!(row.job_id, "job-7");
        assert_eq!(row.completed_at, Some(1_000));
        assert_eq!(row.duration_ms, Some(0));
    }
}

#[test]
fn dry_run_plans_every_configured_hook() {
    let mut p = demo_project();
    p.pre_script = Some("make pre".to_string());
    p.post_success_script = Some("make notify".to_string());
    p.post_always_script = Some("make clean".to_string());
    let rows = dry_run_logs(&p, &demo_data(), "job-8", 5);
    let types: Vec<&str> = rows.iter().map(|r| r.log_type.as_str()).collect();
    assert_eq!(
        types,
        vec!["git_fetch", "git_reset", "pre_script", "main_script", "post_success", "post_always"]
    );
}

#[test]
fn dry_run_in_switch_mode_plans_switch_and_pull() {
    let mut p = demo_project();
    p.reset_to_remote = Some(false);
    let rows = dry_run_logs(&p, &demo_data(), "job-9", 5);
    let types: Vec<&str> = rows.iter().map(|r| r.log_type.as_str()).collect();
    assert_eq!(types, vec!["git_fetch", "git_switch", "git_pull", "main_script"]);
}

#[test]
fn dry_run_summary_names_the_push() {
    let mut data = demo_data();
    data.commit_sha = Some("abc123".to_string());
    let s = dry_run_summary(&data);
    assert!(s.starts_with("[DRY_RUN] Pipeline simulation for project 'demo' branch 'main'"));
    assert!(s.contains("- Commit SHA: abc123"));
    assert!(s.contains("- Commit message: (none)"));
    assert!(s.contains("No actual commands were executed."));
}

#[test]
fn dry_run_flow_marks_the_job_success() {
    let config = CICDConfig { project: vec![demo_project()] };
    let mut limiter = RateLimiter::new();
    let body = br#"{"ref":"refs/heads/main","repository":{"name":"demo"},"after":"abc123"}"#;
    let (decision, plan) =
        handle_push(&config, &mut limiter, 0, Some("push"), body, None, true);
    assert_eq!(decision, IntakeDecision::Accepted);
    let plan = plan.unwrap();
    assert!(plan.dry_run);

    let rows = dry_run_logs(&plan.project, &plan.data, &plan.job.id, 42);
    assert!(rows.iter().all(|r| r.status == "skipped" && r.exit_code == Some(0)));

    let mut job = plan.job;
    job.mark_running();
    job.mark_success(dry_run_summary(&plan.data));
    assert!(matches!(job.status, JobStatus::Success));
    let out = job.output.unwrap();
    assert!(out.starts_with("[DRY_RUN] Pipeline simulation for project 'demo' branch 'main'"));
    assert!(job.error.is_none());
}
