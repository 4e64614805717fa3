use simple_git_cicd::job::{Job, JobStatus, MAX_OUTPUT_SIZE, job_duration_ms};

#[test]
fn new_job_is_queued_with_uuid_id() {
    let job = Job::new("demo".to_string(), "main".to_string());
    assert!(matches!(job.status, JobStatus::Queued));
    assert_eq!(job.id.len(), 36);
    assert!(job.completed_at.is_none());
    assert!(job.output.is_none());
    assert!(job.error.is_none());
    assert!(!job.output_truncated);
}

#[test]
fn from_webhook_keeps_the_data() {
    let job = Job::from_webhook(
        "demo".to_string(),
        "main".to_string(),
        Some("abc123".to_string()),
        Some("m".to_string()),
        Some("a".to_string()),
    );
    assert_eq!(job.project_name, "demo");
    assert_eq!(job.branch, "main");
    assert_eq!(job.commit_sha.as_deref(), Some("abc123"));
    assert_eq!(job.commit_message.as_deref(), Some("m"));
    assert_eq!(job.commit_author.as_deref(), Some("a"));
}

#[test]
fn mark_running_then_success_sets_fields() {
    let mut job = Job::new("demo".to_string(), "main".to_string());
    job.mark_running();
    assert!(matches!(job.status, JobStatus::Running));
    job.mark_success("hi\n".to_string());
    assert!(matches!(job.status, JobStatus::Success));
    assert_eq!(job.output.as_deref(), Some("hi\n"));
    assert!(job.error.is_none());
    assert!(!job.output_truncated);
    let completed = job.completed_at.expect("terminal job has completed_at");
    assert!(completed >= job.started_at);
}

#[test]
fn mark_failed_records_the_error() {
    let mut job = Job::new("demo".to_string(), "main".to_string());
    job.mark_running();
    job.mark_failed("boom".to_string());
    assert!(matches!(job.status, JobStatus::Failed));
    assert_eq!(job.error.as_deref(), Some("boom"));
    assert!(job.completed_at.is_some());
}

#[test]
fn oversized_output_is_capped_at_one_mib_plus_marker() {
    let mut job = Job::new("demo".to_string(), "main".to_string());
    job.mark_running();
    let big = "x".repeat(2 * 1024 * 1024);
    job.mark_success(big);
    let out = job.output.expect("output set");
    assert!(job.output_truncated);
    assert_eq!(out.len(), MAX_OUTPUT_SIZE + "\n... (output truncated)".len());
    assert_eq!(out.len(), 1024 * 1024 + 23);
    assert!(out.ends_with("\n... (output truncated)"));
}

#[test]
fn output_at_the_cap_is_kept_whole() {
    let mut job = Job::new("demo".to_string(), "main".to_string());
    job.mark_running();
    let exact = "y".repeat(MAX_OUTPUT_SIZE);
    job.mark_success(exact.clone());
    assert!(!job.output_truncated);
    assert_eq!(job.output.as_deref(), Some(exact.as_str()));
}

#[test]
fn duration_is_the_clamped_difference() {
    assert_eq!(job_duration_ms(1_000, 4_500), 3_500);
    assert_eq!(job_duration_ms(1_000, 1_000), 0);
    assert_eq!(job_duration_ms(4_500, 1_000), 0);
}

#[test]
fn status_names_round_trip() {
    for s in [JobStatus::Queued, JobStatus::Running, JobStatus::Success, JobStatus::Failed] {
        assert_eq!(JobStatus::parse(s.as_str()), s);
    }
    assert_eq!(JobStatus::parse("queued").as_str(), "queued");
    assert_eq!(JobStatus::parse("garbage"), JobStatus::Failed);
}
