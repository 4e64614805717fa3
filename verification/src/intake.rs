use vstd::prelude::*;
use vstd::utf8::encode_utf8;
use crate::config::{CICDConfig, ProjectConfigView, find_matching_project_owned, spec_find_matching};
use crate::config::ProjectConfig;
use crate::job::Job;
use crate::payload::{PushFields, PushFieldsView, parse_push_payload, spec_push_fields_of};
use crate::rate_limit::{RateLimiter, spec_check_result, spec_stamps_of, spec_window_ms, window_pred};
use crate::signature::{spec_verify_signature, verify_github_signature};
use crate::strutil::{clone_opt_string, str_eq, strip_prefix_str, truncate_with_marker};
use crate::webhook::WebhookData;

verus! {

/// The longest commit message kept; anything longer is cut and marked.
pub const MAX_COMMIT_MSG_LEN: usize = 500;

/// What the webhook endpoint answers a push with: each of these maps to one
/// HTTP status.
#[derive(Clone, Copy, Debug, PartialEq, Eq, Structural)]
pub enum IntakeDecision {
    NotPush,
    BadPayload,
    NoProject,
    Throttled,
    MissingSignature,
    SecretNotConfigured,
    InvalidSignature,
    Accepted,
}

/// An accepted push, ready to schedule: the queued job to persist, the data
/// the pipeline runs with, a snapshot of the matched project, and whether
/// this is a dry run.
pub struct JobPlan {
    pub job: Job,
    pub data: WebhookData,
    pub project: ProjectConfig,
    pub dry_run: bool,
}

/// The branch a push ref names: what follows `refs/heads/`, or the ref
/// itself when it has another shape.
pub open spec fn spec_branch_of(branch_ref: Seq<char>) -> Seq<char> {
    if branch_ref.len() >= 11 && branch_ref.subrange(0, 11) == "refs/heads/"@ {
        branch_ref.skip(11)
    } else {
        branch_ref
    }
}

/// A commit message capped at the kept length, with the marker appended
/// when it was cut.
pub open spec fn spec_truncate_msg(m: Seq<char>) -> Seq<char> {
    if m.len() > MAX_COMMIT_MSG_LEN {
        m.subrange(0, MAX_COMMIT_MSG_LEN as int) + "... (truncated)"@
    } else {
        m
    }
}

/// The decision the intake ladder reaches, given everything it consults:
/// only push events are handled; a payload without the ref and repository
/// name is rejected; an unmatched push is ignored; then the rate limiter
/// admits or throttles; then, for projects that require it, the signature
/// is demanded, the configured secret checked, and the header verified.
pub open spec fn spec_intake_decision(
    projects: Seq<ProjectConfigView>,
    limiter: Seq<(Seq<char>, Seq<u64>)>,
    now: u64,
    event: Option<Seq<char>>,
    fields: Option<PushFieldsView>,
    body: Seq<u8>,
    signature: Option<Seq<char>>,
) -> IntakeDecision {
    if event != Some("push"@) {
        IntakeDecision::NotPush
    } else {
        match fields {
            None => IntakeDecision::BadPayload,
            Some(f) => {
                if f.branch_ref is None || f.repo_name is None {
                    IntakeDecision::BadPayload
                } else {
                    let branch = spec_branch_of(f.branch_ref->Some_0);
                    let repo = f.repo_name->Some_0;
                    match spec_find_matching(projects, repo, branch) {
                        None => IntakeDecision::NoProject,
                        Some(i) => {
                            let p = projects[i];
                            let w = spec_window_ms(p.spec_rate_limit_window());
                            let kept = spec_stamps_of(limiter, p.name).filter(
                                window_pred(now, w),
                            );
                            if kept.len() >= p.spec_rate_limit() {
                                IntakeDecision::Throttled
                            } else if p.spec_needs_webhook_secret() {
                                match signature {
                                    None => IntakeDecision::MissingSignature,
                                    Some(sig) => {
                                        if !p.spec_has_valid_secret() {
                                            IntakeDecision::SecretNotConfigured
                                        } else if !spec_verify_signature(
                                            encode_utf8(p.webhook_secret->Some_0),
                                            body,
                                            sig,
                                        ) {
                                            IntakeDecision::InvalidSignature
                                        } else {
                                            IntakeDecision::Accepted
                                        }
                                    },
                                }
                            } else {
                                IntakeDecision::Accepted
                            }
                        },
                    }
                }
            },
        }
    }
}

/// Whether the intake consulted the rate limiter: it does exactly when a
/// project matched the push.
pub open spec fn spec_intake_rate_checked(
    projects: Seq<ProjectConfigView>,
    event: Option<Seq<char>>,
    fields: Option<PushFieldsView>,
) -> bool {
    &&& event == Some("push"@)
    &&& fields matches Some(f)
    &&& fields->Some_0.branch_ref is Some
    &&& fields->Some_0.repo_name is Some
    &&& spec_find_matching(
        projects,
        fields->Some_0.repo_name->Some_0,
        spec_branch_of(fields->Some_0.branch_ref->Some_0),
    ) is Some
}

/// Everything `process_push` promises, over the states before and after:
/// the decision is the ladder's; the limiter advances by exactly one check
/// for the matched project, and not at all otherwise; and a plan comes back
/// exactly for an accepted push, carrying the queued job and the webhook
/// data read from the fields, with the commit message capped.
pub open spec fn spec_intake_result(
    projects: Seq<ProjectConfigView>,
    lim0: Seq<(Seq<char>, Seq<u64>)>,
    lim1: Seq<(Seq<char>, Seq<u64>)>,
    now: u64,
    event: Option<Seq<char>>,
    fields: Option<PushFieldsView>,
    body: Seq<u8>,
    signature: Option<Seq<char>>,
    dry_run: bool,
    decision: IntakeDecision,
    plan: Option<JobPlan>,
) -> bool {
    &&& decision == spec_intake_decision(projects, lim0, now, event, fields, body, signature)
    &&& if spec_intake_rate_checked(projects, event, fields) {
        ({
            let f = fields->Some_0;
            let branch = spec_branch_of(f.branch_ref->Some_0);
            let repo = f.repo_name->Some_0;
            let i = spec_find_matching(projects, repo, branch)->Some_0;
            let p = projects[i];
            spec_check_result(
                lim0,
                lim1,
                p.name,
                p.spec_rate_limit(),
                p.spec_rate_limit_window(),
                now,
                decision is Throttled,
            )
        })
    } else {
        lim1 == lim0
    }
    &&& (plan is Some <==> decision is Accepted)
    &&& match plan {
        Some(pl) => ({
            let f = fields->Some_0;
            let branch = spec_branch_of(f.branch_ref->Some_0);
            let repo = f.repo_name->Some_0;
            let i = spec_find_matching(projects, repo, branch)->Some_0;
            let msg = match f.commit_message {
                Some(m) => Some(spec_truncate_msg(m)),
                None => None,
            };
            &&& pl.job.inv()
            &&& pl.job.status is Queued
            &&& pl.job.project_name@ == repo
            &&& pl.job.branch@ == branch
            &&& pl.job.commit_sha.deep_view() == f.commit_sha
            &&& pl.job.commit_message.deep_view() == msg
            &&& pl.job.commit_author.deep_view() == f.commit_author_name
            &&& pl.job.id@.len() == 36
            &&& pl.data.project_name@ == repo
            &&& pl.data.branch@ == branch
            &&& pl.data.repo_path@ == projects[i].repo_path
            &&& pl.data.commit_sha.deep_view() == f.commit_sha
            &&& pl.data.commit_message.deep_view() == msg
            &&& pl.data.commit_author_name.deep_view() == f.commit_author_name
            &&& pl.data.commit_author_email.deep_view() == f.commit_author_email
            &&& pl.data.pusher_name.deep_view() == f.pusher_name
            &&& pl.data.repository_url.deep_view() == f.repository_url
            &&& pl.project@ == projects[i]
            &&& pl.dry_run == dry_run
        }),
        None => true,
    }
}

/// The view of an optional string slice.
pub open spec fn spec_opt_view(o: Option<&str>) -> Option<Seq<char>> {
    match o {
        Some(s) => Some(s@),
        None => None,
    }
}

/// The view of optionally present fields.
pub open spec fn spec_opt_fields(o: Option<&PushFields>) -> Option<PushFieldsView> {
    match o {
        Some(f) => Some(f@),
        None => None,
    }
}

/// Decides what to do with one push, given its parsed fields: walks the
/// intake ladder over the configuration, the rate limiter and the
/// signature, and hands back the plan to schedule when the push is
/// accepted.
pub fn process_push(
    config: &CICDConfig,
    limiter: &mut RateLimiter,
    now_ms: u64,
    event: Option<&str>,
    fields: Option<&PushFields>,
    body: &[u8],
    signature_header: Option<&str>,
    dry_run: bool,
) -> (r: (IntakeDecision, Option<JobPlan>))
    requires
        old(limiter).inv(),
    ensures
        final(limiter).inv(),
        spec_intake_result(
            config@,
            old(limiter)@,
            final(limiter)@,
            now_ms,
            spec_opt_view(event),
            spec_opt_fields(fields),
            body@,
            spec_opt_view(signature_header),
            dry_run,
            r.0,
            r.1,
        ),
{
    proof {
        reveal_strlit("push");
        reveal_strlit("refs/heads/");
    }
    let is_push = match event {
        Some(e) => str_eq(e, "push"),
        None => false,
    };
    if !is_push {
        return (IntakeDecision::NotPush, None);
    }
    let f = match fields {
        Some(f) => f,
        None => {
            return (IntakeDecision::BadPayload, None);
        },
    };
    let branch_ref = match &f.branch_ref {
        Some(b) => b,
        None => {
            return (IntakeDecision::BadPayload, None);
        },
    };
    let repo_name = match &f.repo_name {
        Some(n) => n,
        None => {
            return (IntakeDecision::BadPayload, None);
        },
    };
    let branch = strip_prefix_str(branch_ref.as_str(), "refs/heads/");
    assert(branch@ == spec_branch_of(branch_ref@));
    let project = match find_matching_project_owned(config, repo_name.as_str(), branch.as_str()) {
        Some(p) => p,
        None => {
            return (IntakeDecision::NoProject, None);
        },
    };
    let max = project.get_rate_limit();
    let window = project.get_rate_limit_window();
    let throttled = limiter.check_at(project.name.as_str(), max, window, now_ms);
    if throttled {
        return (IntakeDecision::Throttled, None);
    }
    if project.needs_webhook_secret() {
        let sig = match signature_header {
            Some(s) => s,
            None => {
                return (IntakeDecision::MissingSignature, None);
            },
        };
        if !project.has_valid_secret() {
            return (IntakeDecision::SecretNotConfigured, None);
        }
        let secret = project.webhook_secret.as_ref().unwrap();
        if !verify_github_signature(secret.as_str(), body, sig) {
            return (IntakeDecision::InvalidSignature, None);
        }
    }
    let commit_message: Option<String> = match &f.commit_message {
        Some(m) => {
            let (t, _cut) = truncate_with_marker(m.as_str(), MAX_COMMIT_MSG_LEN, "... (truncated)");
            Some(t)
        },
        None => None,
    };
    let job = Job::from_webhook(
        repo_name.clone(),
        branch.clone(),
        clone_opt_string(&f.commit_sha),
        clone_opt_string(&commit_message),
        clone_opt_string(&f.commit_author_name),
    );
    let data = WebhookData {
        project_name: repo_name.clone(),
        branch: branch.clone(),
        repo_path: project.repo_path.clone(),
        commit_sha: clone_opt_string(&f.commit_sha),
        commit_message,
        commit_author_name: clone_opt_string(&f.commit_author_name),
        commit_author_email: clone_opt_string(&f.commit_author_email),
        pusher_name: clone_opt_string(&f.pusher_name),
        repository_url: clone_opt_string(&f.repository_url),
    };
    (IntakeDecision::Accepted, Some(JobPlan { job, data, project, dry_run }))
}

/// Takes one webhook request as it arrives: reads the payload's fields out
/// of the body — the reading is a function of the bytes alone — then
/// decides as `process_push` does, so the whole outcome is pinned to the
/// request.
pub fn handle_push(
    config: &CICDConfig,
    limiter: &mut RateLimiter,
    now_ms: u64,
    event: Option<&str>,
    body: &[u8],
    signature_header: Option<&str>,
    dry_run: bool,
) -> (r: (IntakeDecision, Option<JobPlan>))
    requires
        old(limiter).inv(),
    ensures
        final(limiter).inv(),
        spec_intake_result(
            config@,
            old(limiter)@,
            final(limiter)@,
            now_ms,
            spec_opt_view(event),
            spec_push_fields_of(body@),
            body@,
            spec_opt_view(signature_header),
            dry_run,
            r.0,
            r.1,
        ),
{
    let fields = parse_push_payload(body);
    let fields_ref = fields.as_ref();
    proof {
        match fields_ref {
            Some(f) => {
                assert(f@ =~= spec_push_fields_of(body@)->Some_0);
                assert(spec_opt_fields(fields_ref) == spec_push_fields_of(body@));
            },
            None => {
                assert(spec_opt_fields(fields_ref) == spec_push_fields_of(body@));
            },
        }
    }
    process_push(config, limiter, now_ms, event, fields_ref, body, signature_header, dry_run)
}

} // verus!
