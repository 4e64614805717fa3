use hmac::{Hmac, Mac};
use sha2::Sha256;
use simple_git_cicd::config::{CICDConfig, ProjectConfig};
use simple_git_cicd::intake::{IntakeDecision, handle_push, process_push};
use simple_git_cicd::job::JobStatus;
use simple_git_cicd::payload::PushFields;
use simple_git_cicd::rate_limit::RateLimiter;

fn demo_project() -> ProjectConfig {
    ProjectConfig {
        name: "demo".to_string(),
        repo_path: "/srv/demo".to_string(),
        branches: vec!["main".to_string()],
        run_script: "echo hi".to_string(),
        branch_scripts: None,
        with_webhook_secret: None,
        webhook_secret: None,
        reset_to_remote: Some(true),
        pre_script: None,
        post_script: None,
        post_success_script: None,
        post_failure_script: None,
        post_always_script: None,
        rate_limit_requests: None,
        rate_limit_window_seconds: None,
    }
}

fn demo_config() -> CICDConfig {
    CICDConfig { project: vec![demo_project()] }
}

fn push_fields() -> PushFields {
    PushFields {
        branch_ref: Some("refs/heads/main".to_string()),
        repo_name: Some("demo".to_string()),
        commit_sha: Some("abc123".to_string()),
        commit_message: Some("m".to_string()),
        commit_author_name: Some("a".to_string()),
        commit_author_email: Some("e".to_string()),
        pusher_name: Some("p".to_string()),
        repository_url: Some("https://example.invalid/demo".to_string()),
    }
}

const BODY: &[u8] = br#"{"ref":"refs/heads/main","repository":{"name":"demo","html_url":"https://example.invalid/demo"},"after":"abc123","head_commit":{"message":"m","author":{"name":"a","email":"e"}},"pusher":{"name":"p"}}"#;

#[test]
fn valid_push_is_accepted_with_a_queued_job() {
    let config = demo_config();
    let mut limiter = RateLimiter::new();
    let fields = push_fields();
    let (decision, plan) = process_push(
        &config,
        &mut limiter,
        1_000,
        Some("push"),
        Some(&fields),
        BODY,
        None,
        false,
    );
    assert_eq!(decision, IntakeDecision::Accepted);
    let plan = plan.expect("accepted pushes carry a plan");
    assert!(matches!(plan.job.status, JobStatus::Queued));
    assert_eq!(plan.job.project_name, "demo");
    assert_eq!(plan.job.branch, "main");
    assert_eq!(plan.job.commit_sha.as_deref(), Some("abc123"));
    assert_eq!(plan.data.repo_path, "/srv/demo");
    assert_eq!(plan.data.pusher_name.as_deref(), Some("p"));
    assert!(!plan.dry_run);
}

#[test]
fn non_push_events_are_ignored() {
    let config = demo_config();
    let mut limiter = RateLimiter::new();
    let fields = push_fields();
    let (decision, plan) =
        process_push(&config, &mut limiter, 0, Some("ping"), Some(&fields), BODY, None, false);
    assert_eq!(decision, IntakeDecision::NotPush);
    assert!(plan.is_none());
    let (decision, _) =
        process_push(&config, &mut limiter, 0, None, Some(&fields), BODY, None, false);
    assert_eq!(decision, IntakeDecision::NotPush);
}

#[test]
fn missing_ref_or_repo_is_a_bad_payload() {
    let config = demo_config();
    let mut limiter = RateLimiter::new();
    let mut fields = push_fields();
    fields.branch_ref = None;
    let (decision, _) =
        process_push(&config, &mut limiter, 0, Some("push"), Some(&fields), BODY, None, false);
    assert_eq!(decision, IntakeDecision::BadPayload);

    let mut fields = push_fields();
    fields.repo_name = None;
    let (decision, _) =
        process_push(&config, &mut limiter, 0, Some("push"), Some(&fields), BODY, None, false);
    assert_eq!(decision, IntakeDecision::BadPayload);

    let (decision, _) =
        process_push(&config, &mut limiter, 0, Some("push"), None, BODY, None, false);
    assert_eq!(decision, IntakeDecision::BadPayload);
}

#[test]
fn wrong_branch_matches_no_project() {
    let config = demo_config();
    let mut limiter = RateLimiter::new();
    let mut fields = push_fields();
    fields.branch_ref = Some("refs/heads/other".to_string());
    let (decision, plan) =
        process_push(&config, &mut limiter, 0, Some("push"), Some(&fields), BODY, None, false);
    assert_eq!(decision, IntakeDecision::NoProject);
    assert!(plan.is_none());
}

#[test]
fn missing_signature_is_rejected_when_required() {
    let mut project = demo_project();
    project.with_webhook_secret = Some(true);
    project.webhook_secret = Some("s".to_string());
    let config = CICDConfig { project: vec![project] };
    let mut limiter = RateLimiter::new();
    let fields = push_fields();
    let (decision, plan) =
        process_push(&config, &mut limiter, 0, Some("push"), Some(&fields), BODY, None, false);
    assert_eq!(decision, IntakeDecision::MissingSignature);
    assert!(plan.is_none());
}

#[test]
fn unconfigured_secret_is_a_server_error() {
    let mut project = demo_project();
    project.with_webhook_secret = Some(true);
    project.webhook_secret = None;
    let config = CICDConfig { project: vec![project] };
    let mut limiter = RateLimiter::new();
    let fields = push_fields();
    let (decision, _) = process_push(
        &config,
        &mut limiter,
        0,
        Some("push"),
        Some(&fields),
        BODY,
        Some("sha256=00"),
        false,
    );
    assert_eq!(decision, IntakeDecision::SecretNotConfigured);
}

#[test]
fn bad_signature_is_rejected() {
    let mut project = demo_project();
    project.with_webhook_secret = Some(true);
    project.webhook_secret = Some("s".to_string());
    let config = CICDConfig { project: vec![project] };
    let mut limiter = RateLimiter::new();
    let fields = push_fields();
    let bogus = format!("sha256={}", "0".repeat(64));
    let (decision, _) = process_push(
        &config,
        &mut limiter,
        0,
        Some("push"),
        Some(&fields),
        BODY,
        Some(&bogus),
        false,
    );
    assert_eq!(decision, IntakeDecision::InvalidSignature);
}

#[test]
fn good_signature_is_accepted() {
    let secret = "s";
    let mut project = demo_project();
    project.with_webhook_secret = Some(true);
    project.webhook_secret = Some(secret.to_string());
    let config = CICDConfig { project: vec![project] };
    let mut limiter = RateLimiter::new();
    let fields = push_fields();
    let mut mac = Hmac::<Sha256>::new_from_slice(secret.as_bytes()).unwrap();
    mac.update(BODY);
    let header = format!("sha256={}", hex::encode(mac.finalize().into_bytes()));
    let (decision, plan) = process_push(
        &config,
        &mut limiter,
        0,
        Some("push"),
        Some(&fields),
        BODY,
        Some(&header),
        false,
    );
    assert_eq!(decision, IntakeDecision::Accepted);
    assert!(plan.is_some());
}

#[test]
fn third_push_in_the_window_is_throttled() {
    let mut project = demo_project();
    project.rate_limit_requests = Some(2);
    project.rate_limit_window_seconds = Some(60);
    let config = CICDConfig { project: vec![project] };
    let mut limiter = RateLimiter::new();
    let fields = push_fields();
    for t in [1_000u64, 1_100] {
        let (decision, _) =
            process_push(&config, &mut limiter, t, Some("push"), Some(&fields), BODY, None, false);
        assert_eq!(decision, IntakeDecision::Accepted);
    }
    let (decision, plan) = process_push(
        &config,
        &mut limiter,
        1_200,
        Some("push"),
        Some(&fields),
        BODY,
        None,
        false,
    );
    assert_eq!(decision, IntakeDecision::Throttled);
    assert!(plan.is_none());
}

#[test]
fn long_commit_messages_are_truncated() {
    let config = demo_config();
    let mut limiter = RateLimiter::new();
    let mut fields = push_fields();
    fields.commit_message = Some("z".repeat(600));
    let (decision, plan) =
        process_push(&config, &mut limiter, 0, Some("push"), Some(&fields), BODY, None, false);
    assert_eq!(decision, IntakeDecision::Accepted);
    let msg = plan.unwrap().job.commit_message.unwrap();
    assert_eq!(msg.len(), 500 + "... (truncated)".len());
    assert!(msg.ends_with("... (truncated)"));
}

#[test]
fn bare_branch_ref_is_taken_as_the_branch() {
    let config = demo_config();
    let mut limiter = RateLimiter::new();
    let mut fields = push_fields();
    fields.branch_ref = Some("main".to_string());
    let (decision, plan) =
        process_push(&config, &mut limiter, 0, Some("push"), Some(&fields), BODY, None, false);
    assert_eq!(decision, IntakeDecision::Accepted);
    assert_eq!(plan.unwrap().job.branch, "main");
}

#[test]
fn handle_push_reads_the_json_body() {
    let config = demo_config();
    let mut limiter = RateLimiter::new();
    let (decision, plan) =
        handle_push(&config, &mut limiter, 0, Some("push"), BODY, None, false);
    assert_eq!(decision, IntakeDecision::Accepted);
    let plan = plan.unwrap();
    assert_eq!(plan.job.project_name, "demo");
    assert_eq!(plan.job.branch, "main");
    assert_eq!(plan.job.commit_sha.as_deref(), Some("abc123"));
    assert_eq!(plan.job.commit_author.as_deref(), Some("a"));
    assert_eq!(plan.data.commit_author_email.as_deref(), Some("e"));
    assert_eq!(plan.data.repository_url.as_deref(), Some("https://example.invalid/demo"));
}

#[test]
fn handle_push_rejects_a_body_that_is_not_json() {
    let config = demo_config();
    let mut limiter = RateLimiter::new();
    let (decision, plan) =
        handle_push(&config, &mut limiter, 0, Some("push"), b"not json", None, false);
    assert_eq!(decision, IntakeDecision::BadPayload);
    assert!(plan.is_none());
}

#[test]
fn dry_run_flag_is_carried_into_the_plan() {
    let config = demo_config();
    let mut limiter = RateLimiter::new();
    let (decision, plan) =
        handle_push(&config, &mut limiter, 0, Some("push"), BODY, None, true);
    assert_eq!(decision, IntakeDecision::Accepted);
    assert!(plan.unwrap().dry_run);
}

#[test]
fn json_that_is_not_a_push_object_is_a_bad_payload() {
    let config = demo_config();
    let mut limiter = RateLimiter::new();
    let (decision, plan) =
        handle_push(&config, &mut limiter, 0, Some("push"), b"[1, 2, 3]", None, false);
    assert_eq!(decision, IntakeDecision::BadPayload);
    assert!(plan.is_none());
}

#[test]
fn json_object_without_a_ref_is_a_bad_payload() {
    let config = demo_config();
    let mut limiter = RateLimiter::new();
    let body = br#"{"repository":{"name":"demo"}}"#;
    let (decision, plan) =
        handle_push(&config, &mut limiter, 0, Some("push"), body, None, false);
    assert_eq!(decision, IntakeDecision::BadPayload);
    assert!(plan.is_none());
}
