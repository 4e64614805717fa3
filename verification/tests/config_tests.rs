use simple_git_cicd::config::{CICDConfig, ProjectConfig, find_matching_project, find_matching_project_owned};

fn demo_project() -> ProjectConfig {
    ProjectConfig {
        name: "demo".to_string(),
        repo_path: "/srv/demo".to_string(),
        branches: vec!["main".to_string()],
        run_script: "echo hi".to_string(),
        branch_scripts: None,
        with_webhook_secret: None,
        webhook_secret: None,
        reset_to_remote: None,
        pre_script: None,
        post_script: None,
        post_success_script: None,
        post_failure_script: None,
        post_always_script: None,
        rate_limit_requests: None,
        rate_limit_window_seconds: None,
    }
}

#[test]
fn defaults_are_sixty_sixty_reset_true_no_secret() {
    let p = demo_project();
    assert_eq!(p.get_rate_limit(), 60);
    assert_eq!(p.get_rate_limit_window(), 60);
    assert!(p.should_reset_to_remote());
    assert!(!p.needs_webhook_secret());
    assert!(!p.has_valid_secret());
}

#[test]
fn explicit_settings_are_honored() {
    let mut p = demo_project();
    p.rate_limit_requests = Some(2);
    p.rate_limit_window_seconds = Some(10);
    p.reset_to_remote = Some(false);
    p.with_webhook_secret = Some(true);
    p.webhook_secret = Some("s".to_string());
    assert_eq!(p.get_rate_limit(), 2);
    assert_eq!(p.get_rate_limit_window(), 10);
    assert!(!p.should_reset_to_remote());
    assert!(p.needs_webhook_secret());
    assert!(p.has_valid_secret());
}

#[test]
fn empty_secret_is_not_valid() {
    let mut p = demo_project();
    p.webhook_secret = Some(String::new());
    assert!(!p.has_valid_secret());
}

#[test]
fn branch_script_overrides_run_script() {
    let mut p = demo_project();
    p.branch_scripts = Some(vec![
        ("main".to_string(), "make release".to_string()),
        ("dev".to_string(), "make debug".to_string()),
    ]);
    assert_eq!(p.get_run_script_for_branch("main"), "make release");
    assert_eq!(p.get_run_script_for_branch("dev"), "make debug");
    assert_eq!(p.get_run_script_for_branch("other"), "echo hi");
}

#[test]
fn no_branch_scripts_falls_back() {
    let p = demo_project();
    assert_eq!(p.get_run_script_for_branch("main"), "echo hi");
}

#[test]
fn matching_needs_name_and_branch() {
    let config = CICDConfig { project: vec![demo_project()] };
    assert!(find_matching_project(&config, "demo", "main").is_some());
    assert!(find_matching_project(&config, "demo", "other").is_none());
    assert!(find_matching_project(&config, "else", "main").is_none());
}

#[test]
fn first_match_wins() {
    let mut second = demo_project();
    second.run_script = "echo second".to_string();
    let config = CICDConfig { project: vec![demo_project(), second] };
    let p = find_matching_project(&config, "demo", "main").unwrap();
    assert_eq!(p.run_script, "echo hi");
}

#[test]
fn owned_match_is_a_copy() {
    let config = CICDConfig { project: vec![demo_project()] };
    let p = find_matching_project_owned(&config, "demo", "main").unwrap();
    assert_eq!(p.name, "demo");
    assert_eq!(p.repo_path, "/srv/demo");
}
