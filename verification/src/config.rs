use vstd::prelude::*;
use crate::strutil::{clone_opt_string, str_eq};

verus! {

/// One project's configuration: which repository name and branches it accepts,
/// where its working copy lives, and which commands its pipeline runs.
pub struct ProjectConfig {
    pub name: String,
    pub repo_path: String,
    pub branches: Vec<String>,
    pub run_script: String,
    pub branch_scripts: Option<Vec<(String, String)>>,
    pub with_webhook_secret: Option<bool>,
    pub webhook_secret: Option<String>,
    pub reset_to_remote: Option<bool>,
    pub pre_script: Option<String>,
    pub post_script: Option<String>,
    pub post_success_script: Option<String>,
    pub post_failure_script: Option<String>,
    pub post_always_script: Option<String>,
    pub rate_limit_requests: Option<usize>,
    pub rate_limit_window_seconds: Option<u64>,
}

/// The mathematical content of a project configuration.
#[verifier::ext_equal]
pub struct ProjectConfigView {
    pub name: Seq<char>,
    pub repo_path: Seq<char>,
    pub branches: Seq<Seq<char>>,
    pub run_script: Seq<char>,
    pub branch_scripts: Option<Seq<(Seq<char>, Seq<char>)>>,
    pub with_webhook_secret: Option<bool>,
    pub webhook_secret: Option<Seq<char>>,
    pub reset_to_remote: Option<bool>,
    pub pre_script: Option<Seq<char>>,
    pub post_script: Option<Seq<char>>,
    pub post_success_script: Option<Seq<char>>,
    pub post_failure_script: Option<Seq<char>>,
    pub post_always_script: Option<Seq<char>>,
    pub rate_limit_requests: Option<usize>,
    pub rate_limit_window_seconds: Option<u64>,
}

impl View for ProjectConfig {
    type V = ProjectConfigView;

    open spec fn view(&self) -> ProjectConfigView {
        ProjectConfigView {
            name: self.name@,
            repo_path: self.repo_path@,
            branches: self.branches.deep_view(),
            run_script: self.run_script@,
            branch_scripts: self.branch_scripts.deep_view(),
            with_webhook_secret: self.with_webhook_secret,
            webhook_secret: self.webhook_secret.deep_view(),
            reset_to_remote: self.reset_to_remote,
            pre_script: self.pre_script.deep_view(),
            post_script: self.post_script.deep_view(),
            post_success_script: self.post_success_script.deep_view(),
            post_failure_script: self.post_failure_script.deep_view(),
            post_always_script: self.post_always_script.deep_view(),
            rate_limit_requests: self.rate_limit_requests,
            rate_limit_window_seconds: self.rate_limit_window_seconds,
        }
    }
}

impl DeepView for ProjectConfig {
    type V = ProjectConfigView;

    open spec fn deep_view(&self) -> ProjectConfigView {
        self.view()
    }
}

/// The whole configuration: the list of projects.
pub struct CICDConfig {
    pub project: Vec<ProjectConfig>,
}

impl View for CICDConfig {
    type V = Seq<ProjectConfigView>;

    open spec fn view(&self) -> Seq<ProjectConfigView> {
        self.project.deep_view()
    }
}

/// The script configured for `branch` in `scripts`, taking the first pair
/// whose branch name matches.
pub open spec fn spec_branch_script(
    scripts: Seq<(Seq<char>, Seq<char>)>,
    branch: Seq<char>,
) -> Option<Seq<char>>
    decreases scripts.len(),
{
    if scripts.len() == 0 {
        None
    } else if scripts[0].0 == branch {
        Some(scripts[0].1)
    } else {
        spec_branch_script(scripts.drop_first(), branch)
    }
}

proof fn lemma_branch_script_no_match(scripts: Seq<(Seq<char>, Seq<char>)>, branch: Seq<char>)
    requires
        forall|j: int| 0 <= j < scripts.len() ==> (#[trigger] scripts[j]).0 != branch,
    ensures
        spec_branch_script(scripts, branch) is None,
    decreases scripts.len(),
{
    if scripts.len() > 0 {
        lemma_branch_script_no_match(scripts.drop_first(), branch);
    }
}

proof fn lemma_branch_script_first_match(
    scripts: Seq<(Seq<char>, Seq<char>)>,
    branch: Seq<char>,
    i: int,
)
    requires
        0 <= i < scripts.len(),
        scripts[i].0 == branch,
        forall|j: int| 0 <= j < i ==> (#[trigger] scripts[j]).0 != branch,
    ensures
        spec_branch_script(scripts, branch) == Some(scripts[i].1),
    decreases i,
{
    if i > 0 {
        lemma_branch_script_first_match(scripts.drop_first(), branch, i - 1);
    }
}

impl ProjectConfigView {
    /// Whether webhook signature validation is enforced for this project.
    pub open spec fn spec_needs_webhook_secret(&self) -> bool {
        match self.with_webhook_secret {
            Some(b) => b,
            None => false,
        }
    }

    /// Whether a non-empty webhook secret is configured.
    pub open spec fn spec_has_valid_secret(&self) -> bool {
        match self.webhook_secret {
            Some(s) => s.len() > 0,
            None => false,
        }
    }

    /// The command line the pipeline's main step runs for `branch`: the
    /// branch override when one is configured, otherwise the general
    /// `run_script`.
    pub open spec fn spec_run_script_for_branch(&self, branch: Seq<char>) -> Seq<char> {
        match self.branch_scripts {
            Some(scripts) => match spec_branch_script(scripts, branch) {
                Some(s) => s,
                None => self.run_script,
            },
            None => self.run_script,
        }
    }

    /// The admission cap for the rate limiter, 60 when not configured.
    pub open spec fn spec_rate_limit(&self) -> usize {
        match self.rate_limit_requests {
            Some(n) => n,
            None => 60,
        }
    }

    /// The rate-limiter window in seconds, 60 when not configured.
    pub open spec fn spec_rate_limit_window(&self) -> u64 {
        match self.rate_limit_window_seconds {
            Some(n) => n,
            None => 60,
        }
    }

    /// Whether the pipeline hard-resets the working copy to the remote
    /// branch tip; true when not configured.
    pub open spec fn spec_reset_to_remote(&self) -> bool {
        match self.reset_to_remote {
            Some(b) => b,
            None => true,
        }
    }
}

impl ProjectConfig {
    /// Returns true if webhook secret validation should be enforced.
    pub fn needs_webhook_secret(&self) -> (r: bool)
        ensures
            r == self@.spec_needs_webhook_secret(),
    {
        match self.with_webhook_secret {
            Some(b) => b,
            None => false,
        }
    }

    /// Returns true if a valid (non-empty) webhook_secret is set.
    pub fn has_valid_secret(&self) -> (r: bool)
        ensures
            r == self@.spec_has_valid_secret(),
    {
        match &self.webhook_secret {
            Some(s) => !s.as_str().is_empty(),
            None => false,
        }
    }

    /// Returns the script to run for a specific branch.
    /// If `branch_scripts` contains the branch, returns that script,
    /// otherwise returns the general `run_script`.
    pub fn get_run_script_for_branch<'a>(&'a self, branch: &str) -> (r: &'a str)
        ensures
            r@ == self@.spec_run_script_for_branch(branch@),
    {
        match self.branch_scripts {
            Some(ref scripts) => {
                let n = scripts.len();
                let mut i: usize = 0;
                while i < n
                    invariant
                        n == scripts@.len(),
                        i <= n,
                        self.branch_scripts is Some,
                        (self.branch_scripts->Some_0)@ == scripts@,
                        forall|j: int|
                            0 <= j < i ==> (#[trigger] scripts.deep_view()[j]).0 != branch@,
                    decreases n - i,
                {
                    if str_eq(scripts[i].0.as_str(), branch) {
                        proof {
                            lemma_branch_script_first_match(
                                scripts.deep_view(),
                                branch@,
                                i as int,
                            );
                        }
                        return scripts[i].1.as_str();
                    }
                    i += 1;
                }
                proof {
                    lemma_branch_script_no_match(scripts.deep_view(), branch@);
                }
                self.run_script.as_str()
            },
            None => self.run_script.as_str(),
        }
    }

    /// Returns the maximum number of requests allowed for rate limiting.
    /// Defaults to 60 if `rate_limit_requests` is not set.
    pub fn get_rate_limit(&self) -> (r: usize)
        ensures
            r == self@.spec_rate_limit(),
    {
        match self.rate_limit_requests {
            Some(n) => n,
            None => 60,
        }
    }

    /// Returns the time window in seconds for rate limiting.
    /// Defaults to 60 seconds if `rate_limit_window_seconds` is not set.
    pub fn get_rate_limit_window(&self) -> (r: u64)
        ensures
            r == self@.spec_rate_limit_window(),
    {
        match self.rate_limit_window_seconds {
            Some(n) => n,
            None => 60,
        }
    }

    /// Returns true if git should reset to remote (default: true for CI/CD)
    pub fn should_reset_to_remote(&self) -> (r: bool)
        ensures
            r == self@.spec_reset_to_remote(),
    {
        match self.reset_to_remote {
            Some(b) => b,
            None => true,
        }
    }
}

/// Character-for-character copy of a vector of strings.
fn clone_string_vec(v: &Vec<String>) -> (r: Vec<String>)
    ensures
        r.deep_view() == v.deep_view(),
{
    let n = v.len();
    let mut r: Vec<String> = Vec::new();
    let mut i: usize = 0;
    while i < n
        invariant
            n == v@.len(),
            i <= n,
            r@.len() == i,
            forall|j: int| 0 <= j < i ==> (#[trigger] r@[j])@ == v@[j]@,
        decreases n - i,
    {
        let e = v[i].clone();
        r.push(e);
        i += 1;
    }
    proof {
        assert forall|j: int| 0 <= j < n implies #[trigger] r.deep_view()[j] == v.deep_view()[j] by {
            assert(r.deep_view()[j] == r@[j]@);
            assert(v.deep_view()[j] == v@[j]@);
        }
        assert(r.deep_view() =~= v.deep_view());
    }
    r
}

/// Character-for-character copy of optional branch-to-script pairs.
fn clone_opt_pairs(v: &Option<Vec<(String, String)>>) -> (r: Option<Vec<(String, String)>>)
    ensures
        r.deep_view() == v.deep_view(),
{
    match v {
        Some(pairs) => {
            let n = pairs.len();
            let mut out: Vec<(String, String)> = Vec::new();
            let mut i: usize = 0;
            while i < n
                invariant
                    n == pairs@.len(),
                    i <= n,
                    out@.len() == i,
                    forall|j: int|
                        0 <= j < i ==> (#[trigger] out@[j]).0@ == pairs@[j].0@ && out@[j].1@
                            == pairs@[j].1@,
                decreases n - i,
            {
                let e = (pairs[i].0.clone(), pairs[i].1.clone());
                out.push(e);
                i += 1;
            }
            proof {
                assert forall|j: int| 0 <= j < n implies #[trigger] out.deep_view()[j]
                    == pairs.deep_view()[j] by {
                    assert(out.deep_view()[j] == (out@[j].0@, out@[j].1@));
                    assert(pairs.deep_view()[j] == (pairs@[j].0@, pairs@[j].1@));
                }
                assert(out.deep_view() =~= pairs.deep_view());
                assert(Some(out).deep_view() =~= v.deep_view());
            }
            Some(out)
        },
        None => None,
    }
}

impl Clone for ProjectConfig {
    /// A copy with the same mathematical content.
    fn clone(&self) -> (r: Self)
        ensures
            r@ == self@,
    {
        let r = ProjectConfig {
            name: self.name.clone(),
            repo_path: self.repo_path.clone(),
            branches: clone_string_vec(&self.branches),
            run_script: self.run_script.clone(),
            branch_scripts: clone_opt_pairs(&self.branch_scripts),
            with_webhook_secret: self.with_webhook_secret,
            webhook_secret: clone_opt_string(&self.webhook_secret),
            reset_to_remote: self.reset_to_remote,
            pre_script: clone_opt_string(&self.pre_script),
            post_script: clone_opt_string(&self.post_script),
            post_success_script: clone_opt_string(&self.post_success_script),
            post_failure_script: clone_opt_string(&self.post_failure_script),
            post_always_script: clone_opt_string(&self.post_always_script),
            rate_limit_requests: self.rate_limit_requests,
            rate_limit_window_seconds: self.rate_limit_window_seconds,
        };
        proof {
            assert(r@ =~~= self@);
        }
        r
    }
}

/// A project accepts a push when its name equals the repository name and the
/// push's branch is among its configured branches.
pub open spec fn spec_project_matches(
    p: ProjectConfigView,
    repo: Seq<char>,
    branch: Seq<char>,
) -> bool {
    p.name == repo && exists|i: int| 0 <= i < p.branches.len() && #[trigger] p.branches[i] == branch
}

/// The index of the first project in `projects` matching the push, if any.
pub open spec fn spec_find_matching(
    projects: Seq<ProjectConfigView>,
    repo: Seq<char>,
    branch: Seq<char>,
) -> Option<int> {
    if exists|i: int|
        0 <= i < projects.len() && spec_project_matches(#[trigger] projects[i], repo, branch) {
        Some(
            choose|i: int|
                0 <= i < projects.len() && spec_project_matches(#[trigger] projects[i], repo, branch)
                    && forall|j: int|
                    0 <= j < i ==> !spec_project_matches(#[trigger] projects[j], repo, branch),
        )
    } else {
        None
    }
}

/// True when some branch of `branches` equals `branch`.
fn contains_branch(branches: &Vec<String>, branch: &str) -> (r: bool)
    ensures
        r == exists|i: int|
            0 <= i < branches.deep_view().len() && #[trigger] branches.deep_view()[i] == branch@,
{
    let n = branches.len();
    let mut i: usize = 0;
    while i < n
        invariant
            n == branches@.len(),
            i <= n,
            forall|j: int| 0 <= j < i ==> (#[trigger] branches.deep_view()[j]) != branch@,
        decreases n - i,
    {
        if str_eq(branches[i].as_str(), branch) {
            assert(branches.deep_view()[i as int] == branch@);
            return true;
        }
        i += 1;
    }
    false
}

/// Finds the first project config matching both repository name and branch.
/// Returns None if there's no suitable match.
pub fn find_matching_project<'a>(config: &'a CICDConfig, repo_name: &str, branch: &str) -> (r:
    Option<&'a ProjectConfig>)
    ensures
        match r {
            Some(p) => {
                &&& spec_find_matching(config@, repo_name@, branch@) matches Some(i)
                &&& 0 <= i < config@.len()
                &&& p@ == config@[spec_find_matching(config@, repo_name@, branch@).unwrap()]
            },
            None => spec_find_matching(config@, repo_name@, branch@) is None,
        },
{
    let n = config.project.len();
    let mut i: usize = 0;
    while i < n
        invariant
            n == config.project@.len(),
            i <= n,
            forall|j: int| 0 <= j < i ==> !spec_project_matches(#[trigger] config@[j], repo_name@, branch@),
        decreases n - i,
    {
        let p = &config.project[i];
        if str_eq(p.name.as_str(), repo_name) && contains_branch(&p.branches, branch) {
            assert(spec_project_matches(config@[i as int], repo_name@, branch@));
            return Some(p);
        }
        assert(!spec_project_matches(config@[i as int], repo_name@, branch@));
        i += 1;
    }
    None
}

/// As `find_matching_project`, but hands back a copy of the matched project,
/// so the caller can let go of the configuration.
pub fn find_matching_project_owned(config: &CICDConfig, repo_name: &str, branch: &str) -> (r:
    Option<ProjectConfig>)
    ensures
        match r {
            Some(p) => {
                &&& spec_find_matching(config@, repo_name@, branch@) matches Some(i)
                &&& 0 <= i < config@.len()
                &&& p@ == config@[spec_find_matching(config@, repo_name@, branch@).unwrap()]
            },
            None => spec_find_matching(config@, repo_name@, branch@) is None,
        },
{
    match find_matching_project(config, repo_name, branch) {
        Some(p) => Some(p.clone()),
        None => None,
    }
}

} // verus!
