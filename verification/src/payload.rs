use vstd::prelude::*;
use serde_json::Value;

verus! {

/// The fields read out of a push payload, each absent when the payload does
/// not carry it.
pub struct PushFields {
    pub branch_ref: Option<String>,
    pub repo_name: Option<String>,
    pub commit_sha: Option<String>,
    pub commit_message: Option<String>,
    pub commit_author_name: Option<String>,
    pub commit_author_email: Option<String>,
    pub pusher_name: Option<String>,
    pub repository_url: Option<String>,
}

/// The mathematical content of the read fields.
#[verifier::ext_equal]
pub struct PushFieldsView {
    pub branch_ref: Option<Seq<char>>,
    pub repo_name: Option<Seq<char>>,
    pub commit_sha: Option<Seq<char>>,
    pub commit_message: Option<Seq<char>>,
    pub commit_author_name: Option<Seq<char>>,
    pub commit_author_email: Option<Seq<char>>,
    pub pusher_name: Option<Seq<char>>,
    pub repository_url: Option<Seq<char>>,
}

impl View for PushFields {
    type V = PushFieldsView;

    open spec fn view(&self) -> PushFieldsView {
        PushFieldsView {
            branch_ref: self.branch_ref.deep_view(),
            repo_name: self.repo_name.deep_view(),
            commit_sha: self.commit_sha.deep_view(),
            commit_message: self.commit_message.deep_view(),
            commit_author_name: self.commit_author_name.deep_view(),
            commit_author_email: self.commit_author_email.deep_view(),
            pusher_name: self.pusher_name.deep_view(),
            repository_url: self.repository_url.deep_view(),
        }
    }
}

/// Whether the bytes are a valid JSON document: a function of the bytes
/// alone.
pub uninterp spec fn spec_payload_parses(body: Seq<u8>) -> bool;

/// The string under `ref` in the document the bytes hold, when there is
/// one: a function of the bytes alone, like each field name below.
pub uninterp spec fn spec_ref_of(body: Seq<u8>) -> Option<Seq<char>>;

/// The string under `repository.name`.
pub uninterp spec fn spec_repo_name_of(body: Seq<u8>) -> Option<Seq<char>>;

/// The string under `after`.
pub uninterp spec fn spec_sha_of(body: Seq<u8>) -> Option<Seq<char>>;

/// The string under `head_commit.message`.
pub uninterp spec fn spec_message_of(body: Seq<u8>) -> Option<Seq<char>>;

/// The string under `head_commit.author.name`.
pub uninterp spec fn spec_author_name_of(body: Seq<u8>) -> Option<Seq<char>>;

/// The string under `head_commit.author.email`.
pub uninterp spec fn spec_author_email_of(body: Seq<u8>) -> Option<Seq<char>>;

/// The string under `pusher.name`.
pub uninterp spec fn spec_pusher_of(body: Seq<u8>) -> Option<Seq<char>>;

/// The string under `repository.html_url`.
pub uninterp spec fn spec_url_of(body: Seq<u8>) -> Option<Seq<char>>;

/// What reading a push payload gives: nothing for bytes that are not valid
/// JSON, and otherwise the named field of the document for each field, so
/// that equal bodies always read equally.
pub open spec fn spec_push_fields_of(body: Seq<u8>) -> Option<PushFieldsView> {
    if spec_payload_parses(body) {
        Some(
            PushFieldsView {
                branch_ref: spec_ref_of(body),
                repo_name: spec_repo_name_of(body),
                commit_sha: spec_sha_of(body),
                commit_message: spec_message_of(body),
                commit_author_name: spec_author_name_of(body),
                commit_author_email: spec_author_email_of(body),
                pusher_name: spec_pusher_of(body),
                repository_url: spec_url_of(body),
            },
        )
    } else {
        None
    }
}

/// Relies on serde_json's `from_slice`, `Value::pointer` and `Value::as_str`:
/// parsing is deterministic in the bytes (with duplicate keys the last one
/// stays), each lookup reads the parsed document, and a body that is not
/// valid JSON yields nothing. So the result is exactly
/// `spec_push_fields_of` of the bytes.
#[verifier::external_body]
pub fn parse_push_payload(body: &[u8]) -> (r: Option<PushFields>)
    ensures
        r is Some <==> spec_payload_parses(body@),
        r matches Some(f) ==> f@.branch_ref == spec_ref_of(body@),
        r matches Some(f) ==> f@.repo_name == spec_repo_name_of(body@),
        r matches Some(f) ==> f@.commit_sha == spec_sha_of(body@),
        r matches Some(f) ==> f@.commit_message == spec_message_of(body@),
        r matches Some(f) ==> f@.commit_author_name == spec_author_name_of(body@),
        r matches Some(f) ==> f@.commit_author_email == spec_author_email_of(body@),
        r matches Some(f) ==> f@.pusher_name == spec_pusher_of(body@),
        r matches Some(f) ==> f@.repository_url == spec_url_of(body@),
{
    let v: Value = serde_json::from_slice(body).ok()?;
    let g = |p: &str| v.pointer(p).and_then(Value::as_str).map(str::to_string);
    Some(PushFields {
        branch_ref: g("/ref"),
        repo_name: g("/repository/name"),
        commit_sha: g("/after"),
        commit_message: g("/head_commit/message"),
        commit_author_name: g("/head_commit/author/name"),
        commit_author_email: g("/head_commit/author/email"),
        pusher_name: g("/pusher/name"),
        repository_url: g("/repository/html_url"),
    })
}

} // verus!
