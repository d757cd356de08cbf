//! Typed references to receipts, harnesses, credentials and provider
//! objects.
use vstd::prelude::*;
use crate::text::str_eq;

verus! {

#[derive(Clone, Copy, Debug, PartialEq, Eq, Structural)]
pub enum ReferenceType {
    Act,
    Artifact,
    Credential,
    Grant,
    Harness,
    HarnessReceipt,
    Host,
    Principal,
    Receipt,
    Verification,
    GithubIssue,
    GithubPullRequest,
    GithubRepo,
    SlackThread,
}

/// What kind of proof a reference carries.
#[derive(Clone, Copy, Debug, PartialEq, Eq, Structural)]
pub enum ReferenceProofKind {
    PaymentRail,
}

/// A pointer to an object: its type and URI, with optional provider,
/// locator, label, observation time and proof kind.
#[derive(Clone, Debug, PartialEq)]
pub struct Reference {
    pub reference_type: ReferenceType,
    pub uri: String,
    pub provider: Option<String>,
    pub locator: Option<String>,
    pub label: Option<String>,
    pub observed_at: Option<String>,
    pub proof_kind: Option<ReferenceProofKind>,
}

/// The mathematical view of a reference.
pub struct ReferenceView {
    pub reference_type: ReferenceType,
    pub uri: Seq<char>,
    pub provider: Option<Seq<char>>,
    pub locator: Option<Seq<char>>,
    pub label: Option<Seq<char>>,
    pub observed_at: Option<Seq<char>>,
    pub proof_kind: Option<ReferenceProofKind>,
}

pub open spec fn opt_str(o: Option<String>) -> Option<Seq<char>> {
    match o {
        Some(s) => Some(s@),
        None => None,
    }
}

impl View for Reference {
    type V = ReferenceView;

    open spec fn view(&self) -> ReferenceView {
        ReferenceView {
            reference_type: self.reference_type,
            uri: self.uri@,
            provider: opt_str(self.provider),
            locator: opt_str(self.locator),
            label: opt_str(self.label),
            observed_at: opt_str(self.observed_at),
            proof_kind: self.proof_kind,
        }
    }
}

/// Two references name the same object: same type and URI.
pub open spec fn same_ref(a: ReferenceView, b: ReferenceView) -> bool {
    a.reference_type == b.reference_type && a.uri == b.uri
}

/// Two references name the same object through the same provider locator.
pub open spec fn same_ref_identity(a: ReferenceView, b: ReferenceView) -> bool {
    same_ref(a, b) && a.provider == b.provider && a.locator == b.locator
}

pub fn copy_opt_string(o: &Option<String>) -> (r: Option<String>)
    ensures
        opt_str(r) == opt_str(*o),
{
    match o {
        Some(s) => Some(s.clone()),
        None => None,
    }
}

pub fn opt_string_eq(a: &Option<String>, b: &Option<String>) -> (r: bool)
    ensures
        r == (opt_str(*a) == opt_str(*b)),
{
    match (a, b) {
        (Some(x), Some(y)) => str_eq(x.as_str(), y.as_str()),
        (None, None) => true,
        _ => false,
    }
}

/// The name of a reference type in URIs and documents.
pub open spec fn type_slug(t: ReferenceType) -> Seq<char> {
    match t {
        ReferenceType::Act => "act"@,
        ReferenceType::Artifact => "artifact"@,
        ReferenceType::Credential => "credential"@,
        ReferenceType::Grant => "grant"@,
        ReferenceType::Harness => "harness"@,
        ReferenceType::HarnessReceipt => "harness_receipt"@,
        ReferenceType::Host => "host"@,
        ReferenceType::Principal => "principal"@,
        ReferenceType::Receipt => "receipt"@,
        ReferenceType::Verification => "verification"@,
        ReferenceType::GithubIssue => "github_issue"@,
        ReferenceType::GithubPullRequest => "github_pull_request"@,
        ReferenceType::GithubRepo => "github_repo"@,
        ReferenceType::SlackThread => "slack_thread"@,
    }
}

impl ReferenceType {
    /// The type's name in URIs and documents.
    pub fn as_str(&self) -> (r: &'static str)
        ensures
            r@ == type_slug(*self),
    {
        match self {
            ReferenceType::Act => "act",
            ReferenceType::Artifact => "artifact",
            ReferenceType::Credential => "credential",
            ReferenceType::Grant => "grant",
            ReferenceType::Harness => "harness",
            ReferenceType::HarnessReceipt => "harness_receipt",
            ReferenceType::Host => "host",
            ReferenceType::Principal => "principal",
            ReferenceType::Receipt => "receipt",
            ReferenceType::Verification => "verification",
            ReferenceType::GithubIssue => "github_issue",
            ReferenceType::GithubPullRequest => "github_pull_request",
            ReferenceType::GithubRepo => "github_repo",
            ReferenceType::SlackThread => "slack_thread",
        }
    }
}

/// The runx URI of an object: `runx:{type}:{id}`.
pub open spec fn runx_uri(t: ReferenceType, id: Seq<char>) -> Seq<char> {
    "runx:"@ + type_slug(t) + ":"@ + id
}

impl Reference {
    /// The reference to a runx object of the given type and id.
    pub fn runx(reference_type: ReferenceType, id: &str) -> (r: Reference)
        ensures
            r@ == (ReferenceView {
                reference_type,
                uri: runx_uri(reference_type, id@),
                provider: None,
                locator: None,
                label: None,
                observed_at: None,
                proof_kind: None,
            }),
    {
        let mut uri = "runx:".to_owned();
        uri.append(reference_type.as_str());
        uri.append(":");
        uri.append(id);
        Reference {
            reference_type,
            uri,
            provider: None,
            locator: None,
            label: None,
            observed_at: None,
            proof_kind: None,
        }
    }

    /// A reference of the given type and URI with no further metadata.
    pub fn new(reference_type: ReferenceType, uri: &str) -> (r: Reference)
        ensures
            r@ == (ReferenceView {
                reference_type,
                uri: uri@,
                provider: None,
                locator: None,
                label: None,
                observed_at: None,
                proof_kind: None,
            }),
    {
        Reference {
            reference_type,
            uri: uri.to_owned(),
            provider: None,
            locator: None,
            label: None,
            observed_at: None,
            proof_kind: None,
        }
    }

    /// A copy with the same view.
    pub fn copy(&self) -> (r: Reference)
        ensures
            r@ == self@,
    {
        Reference {
            reference_type: self.reference_type,
            uri: self.uri.clone(),
            provider: copy_opt_string(&self.provider),
            locator: copy_opt_string(&self.locator),
            label: copy_opt_string(&self.label),
            observed_at: copy_opt_string(&self.observed_at),
            proof_kind: self.proof_kind,
        }
    }
}

/// Same type and URI.
pub fn same_reference(left: &Reference, right: &Reference) -> (r: bool)
    ensures
        r == same_ref(left@, right@),
{
    left.reference_type == right.reference_type && left.uri == right.uri
}

/// Same type, URI, provider and locator.
pub fn same_reference_identity(left: &Reference, right: &Reference) -> (r: bool)
    ensures
        r == same_ref_identity(left@, right@),
{
    same_reference(left, right) && opt_string_eq(&left.provider, &right.provider)
        && opt_string_eq(&left.locator, &right.locator)
}

/// Copies of every reference in `refs`, in order.
pub fn copy_refs(refs: &[Reference]) -> (r: Vec<Reference>)
    ensures
        r@.len() == refs@.len(),
        forall|i: int| 0 <= i < refs@.len() ==> #[trigger] r@[i]@ == refs@[i]@,
{
    let mut out: Vec<Reference> = Vec::new();
    let mut i: usize = 0;
    while i < refs.len()
        invariant
            i <= refs@.len(),
            out@.len() == i,
            forall|j: int| 0 <= j < i ==> #[trigger] out@[j]@ == refs@[j]@,
        decreases refs@.len() - i,
    {
        out.push(refs[i].copy());
        i += 1;
    }
    out
}

} // verus!
