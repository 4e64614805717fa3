use vstd::prelude::*;

verus! {

/// Data extracted from webhook payload and configuration
/// This data is passed to scripts as environment variables
pub struct WebhookData {
    pub project_name: String,
    pub branch: String,
    pub repo_path: String,
    pub commit_sha: Option<String>,
    pub commit_message: Option<String>,
    pub commit_author_name: Option<String>,
    pub commit_author_email: Option<String>,
    pub pusher_name: Option<String>,
    pub repository_url: Option<String>,
}

impl WebhookData {
    /// Create minimal webhook data (when payload parsing fails or for testing)
    pub fn minimal(project_name: String, branch: String, repo_path: String) -> (r: Self)
        ensures
            r.project_name == project_name,
            r.branch == branch,
            r.repo_path == repo_path,
            r.commit_sha is None,
            r.commit_message is None,
            r.commit_author_name is None,
            r.commit_author_email is None,
            r.pusher_name is None,
            r.repository_url is None,
    {
        WebhookData {
            project_name,
            branch,
            repo_path,
            commit_sha: None,
            commit_message: None,
            commit_author_name: None,
            commit_author_email: None,
            pusher_name: None,
            repository_url: None,
        }
    }
}

} // verus!
