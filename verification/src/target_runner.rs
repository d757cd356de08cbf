//! The target-repo runner: its command and observation shapes, its error
//! channel, and the public views projected from its sealed receipts.
use vstd::prelude::*;
use crate::json::{JsonData, JsonObject, JsonValue, lookup};
use crate::receipt::{ActForm, ClosureDisposition, Receipt, ReceiptAct};
use crate::reference::{Reference, ReferenceType, ReferenceView, runx_uri};

verus! {

/// Whether the runner opened a new pull request or reused one.
#[derive(Clone, Copy, Debug, PartialEq, Eq, Structural)]
pub enum TargetRepoRunnerPullRequestDisposition {
    Create,
    Reuse,
}

/// A failed adapter operation.
#[derive(Clone, Debug, PartialEq)]
pub struct TargetRepoRunnerAdapterError {
    pub operation: &'static str,
    pub message: String,
}

impl TargetRepoRunnerAdapterError {
    pub fn new(operation: &'static str, message: String) -> (r: Self)
        ensures
            r.operation == operation,
            r.message@ == message@,
    {
        TargetRepoRunnerAdapterError { operation, message }
    }

    /// `"{operation} failed: {message}"`.
    pub fn text(&self) -> (r: String)
        ensures
            r@ == self.operation@ + " failed: "@ + self.message@,
    {
        let mut s = self.operation.to_owned();
        s.append(" failed: ");
        s.append(self.message.as_str());
        s
    }
}

/// The runtime's single exit channel for target-runner errors.
#[derive(Clone, Debug, PartialEq)]
pub enum TargetRepoRunnerRuntimeError {
    Adapter(TargetRepoRunnerAdapterError),
    CommandValidation { operation: &'static str, message: String },
    Receipt(String),
    ReceiptProjection(String),
    SourcePublicationMismatch(String),
    ReadinessMismatch(String),
    CheckoutNotScafldReady { target_repo: String },
    CreatedPullRequestRequired { target_repo: String },
}

impl TargetRepoRunnerRuntimeError {
    /// The error as the runtime reports it.
    pub fn text(&self) -> (r: String)
        ensures
            r@ == runtime_error_text(*self),
    {
        match self {
            TargetRepoRunnerRuntimeError::Adapter(e) => e.text(),
            TargetRepoRunnerRuntimeError::CommandValidation { operation, message } => {
                let mut s = "target repo runner ".to_owned();
                s.append(operation);
                s.append(" command is invalid: ");
                s.append(message.as_str());
                s
            },
            TargetRepoRunnerRuntimeError::Receipt(m) => {
                let mut s = "target repo runner receipt failed: ".to_owned();
                s.append(m.as_str());
                s
            },
            TargetRepoRunnerRuntimeError::ReceiptProjection(m) => {
                let mut s = "target repo runner receipt projection failed: ".to_owned();
                s.append(m.as_str());
                s
            },
            TargetRepoRunnerRuntimeError::SourcePublicationMismatch(m) => {
                let mut s = "target repo runner source publication failed: ".to_owned();
                s.append(m.as_str());
                s
            },
            TargetRepoRunnerRuntimeError::ReadinessMismatch(m) => m.clone(),
            TargetRepoRunnerRuntimeError::CheckoutNotScafldReady { target_repo } => {
                let mut s = "target repo runner fixture requires scafld-ready checkout for '".to_owned();
                s.append(target_repo.as_str());
                s.append("'");
                s
            },
            TargetRepoRunnerRuntimeError::CreatedPullRequestRequired { target_repo } => {
                let mut s = "target repo runner fixture needs a created pull request for '".to_owned();
                s.append(target_repo.as_str());
                s.append("'");
                s
            },
        }
    }
}

pub open spec fn runtime_error_text(e: TargetRepoRunnerRuntimeError) -> Seq<char> {
    match e {
        TargetRepoRunnerRuntimeError::Adapter(a) => a.operation@ + " failed: "@ + a.message@,
        TargetRepoRunnerRuntimeError::CommandValidation { operation, message } =>
            "target repo runner "@ + operation@ + " command is invalid: "@ + message@,
        TargetRepoRunnerRuntimeError::Receipt(m) => "target repo runner receipt failed: "@ + m@,
        TargetRepoRunnerRuntimeError::ReceiptProjection(m) => "target repo runner receipt projection failed: "@ + m@,
        TargetRepoRunnerRuntimeError::SourcePublicationMismatch(m) => "target repo runner source publication failed: "@ + m@,
        TargetRepoRunnerRuntimeError::ReadinessMismatch(m) => m@,
        TargetRepoRunnerRuntimeError::CheckoutNotScafldReady { target_repo } =>
            "target repo runner fixture requires scafld-ready checkout for '"@ + target_repo@ + "'"@,
        TargetRepoRunnerRuntimeError::CreatedPullRequestRequired { target_repo } =>
            "target repo runner fixture needs a created pull request for '"@ + target_repo@ + "'"@,
    }
}

// ---------------------------------------------------------------------
// Command and observation shapes.
// ---------------------------------------------------------------------

#[derive(Clone, Debug, PartialEq)]
pub struct TargetRepoRunnerGovernedRunnerObservation {
    pub runner_id: String,
    pub target_repo: String,
    pub summary: String,
    pub revision_refs: Vec<Reference>,
    pub artifact_refs: Vec<Reference>,
    pub verification_refs: Vec<Reference>,
}

#[derive(Clone, Debug, PartialEq)]
pub struct TargetRepoRunnerGitMutationObservation {
    pub target_repo: String,
    pub branch: String,
    pub head_sha: String,
    pub revision_refs: Vec<Reference>,
    pub verification_refs: Vec<Reference>,
}

#[derive(Clone, Debug, PartialEq)]
pub struct TargetRepoRunnerCheckoutCommand {
    pub target_repo: String,
    pub public_repo_ref: Reference,
    pub base_branch: Option<String>,
    pub runner_id: String,
    pub runner_kind: String,
    pub target_scafld_required: bool,
    pub runner_scafld_required: bool,
    pub mutate_target_repo: bool,
    pub local_path_hidden: bool,
}

#[derive(Clone, Debug, PartialEq)]
pub struct TargetRepoRunnerPullRequestCreateCommand {
    pub title: String,
    pub body: String,
    pub head_branch: String,
    pub head_sha: String,
    pub runner_id: String,
    pub runner_summary: String,
    pub runner_revision_refs: Vec<Reference>,
    pub git_revision_refs: Vec<Reference>,
    pub artifact_refs: Vec<Reference>,
    pub verification_refs: Vec<Reference>,
    pub git_verification_refs: Vec<Reference>,
}

#[derive(Clone, Debug, PartialEq)]
pub enum TargetRepoRunnerSourcePublicationCommand {
    SourceIssueComment { target: Reference, body: String },
    SourceThreadReply { target: Reference, body: String },
}

#[derive(Clone, Debug, PartialEq)]
pub struct TargetRepoRunnerSourcePublicationObservation {
    pub source_issue_ref: Option<Reference>,
    pub source_thread_ref: Reference,
    pub pull_request_ref: Reference,
    pub revision_receipt_ref: Reference,
    pub published_refs: Vec<Reference>,
    pub metadata: JsonObject,
}

/// The public view of a sealed revision receipt.
#[derive(Clone, Debug, PartialEq)]
pub struct TargetRepoRunnerRevisionReceiptProjection {
    pub receipt_ref: Reference,
    pub act_id: String,
    pub disposition: TargetRepoRunnerPullRequestDisposition,
    pub target_repo_ref: Reference,
    pub source_issue_ref: Option<Reference>,
    pub source_thread_ref: Reference,
    pub pull_request_ref: Reference,
    pub summary: String,
    pub metadata: JsonObject,
}

/// The public view of a sealed source-publication receipt.
#[derive(Clone, Debug, PartialEq)]
pub struct TargetRepoRunnerSourcePublicationProjection {
    pub receipt_ref: Reference,
    pub source_issue_ref: Option<Reference>,
    pub source_thread_ref: Reference,
    pub pull_request_ref: Reference,
    pub published_refs: Vec<Reference>,
    pub summary: String,
    pub metadata: JsonObject,
}

// ---------------------------------------------------------------------
// Projection.
// ---------------------------------------------------------------------

pub open spec fn refs_view(refs: Seq<Reference>) -> Seq<ReferenceView> {
    refs.map_values(|r: Reference| r@)
}

pub open spec fn opt_ref_view(o: Option<Reference>) -> Option<ReferenceView> {
    match o {
        Some(r) => Some(r@),
        None => None,
    }
}

/// The first reference of type `t`.
pub open spec fn first_of_type(refs: Seq<ReferenceView>, t: ReferenceType) -> Option<ReferenceView>
    decreases refs.len(),
{
    if refs.len() == 0 {
        None
    } else if refs[0].reference_type == t {
        Some(refs[0])
    } else {
        first_of_type(refs.drop_first(), t)
    }
}

proof fn lemma_first_of_type_step(refs: Seq<ReferenceView>, t: ReferenceType, i: int)
    requires
        0 <= i < refs.len(),
        forall|j: int| 0 <= j < i ==> (#[trigger] refs[j]).reference_type != t,
    ensures
        first_of_type(refs, t) == first_of_type(refs.subrange(i, refs.len() as int), t),
    decreases i,
{
    if i > 0 {
        assert(refs.drop_first().subrange(i - 1, refs.drop_first().len() as int) =~= refs.subrange(i, refs.len() as int));
        lemma_first_of_type_step(refs.drop_first(), t, i - 1);
    } else {
        assert(refs.subrange(0, refs.len() as int) =~= refs);
    }
}

proof fn lemma_first_of_type_none(refs: Seq<ReferenceView>, t: ReferenceType)
    requires
        forall|j: int| 0 <= j < refs.len() ==> (#[trigger] refs[j]).reference_type != t,
    ensures
        first_of_type(refs, t) is None,
    decreases refs.len(),
{
    if refs.len() > 0 {
        assert(refs[0].reference_type != t);
        assert forall|j: int| 0 <= j < refs.drop_first().len() implies (#[trigger] refs.drop_first()[j]).reference_type != t by {
            assert(refs.drop_first()[j] == refs[j + 1]);
        }
        lemma_first_of_type_none(refs.drop_first(), t);
    }
}

/// A copy of the first reference of type `reference_type`.
pub fn find_ref(refs: &Vec<Reference>, reference_type: ReferenceType) -> (r: Option<Reference>)
    ensures
        opt_ref_view(r) == first_of_type(refs_view(refs@), reference_type),
{
    let ghost v = refs_view(refs@);
    let mut i: usize = 0;
    while i < refs.len()
        invariant
            i <= refs@.len(),
            v == refs_view(refs@),
            v.len() == refs@.len(),
            forall|j: int| 0 <= j < i ==> (#[trigger] v[j]).reference_type != reference_type,
        decreases refs@.len() - i,
    {
        if refs[i].reference_type == reference_type {
            proof {
                lemma_first_of_type_step(v, reference_type, i as int);
                assert(v.subrange(i as int, v.len() as int)[0] == refs@[i as int]@);
            }
            return Some(refs[i].copy());
        }
        i += 1;
    }
    proof {
        lemma_first_of_type_none(v, reference_type);
    }
    None
}

/// The pull request disposition recorded in a receipt's target-runner
/// metadata.
pub open spec fn disposition_spec(metadata: Seq<(Seq<char>, JsonData)>) -> Result<TargetRepoRunnerPullRequestDisposition, Seq<char>> {
    match lookup(metadata, "target_runner"@) {
        Some(JsonData::Object(t)) => match lookup(t, "disposition"@) {
            Some(JsonData::Str(s)) => if s == "created"@ {
                Ok(TargetRepoRunnerPullRequestDisposition::Create)
            } else if s == "reused"@ {
                Ok(TargetRepoRunnerPullRequestDisposition::Reuse)
            } else {
                Err("target runner disposition is invalid"@)
            },
            _ => Err("target runner disposition is invalid"@),
        },
        _ => Err("target runner metadata object is required"@),
    }
}

pub fn projection_disposition(metadata: &JsonObject) -> (r: Result<TargetRepoRunnerPullRequestDisposition, TargetRepoRunnerRuntimeError>)
    ensures
        match disposition_spec(metadata.view()) {
            Ok(d) => r == Ok::<TargetRepoRunnerPullRequestDisposition, TargetRepoRunnerRuntimeError>(d),
            Err(m) => r matches Err(TargetRepoRunnerRuntimeError::ReceiptProjection(x)) && x@ == m,
        },
{
    let target_runner = match metadata.get("target_runner") {
        Some(JsonValue::Object(t)) => t,
        _ => {
            return Err(TargetRepoRunnerRuntimeError::ReceiptProjection("target runner metadata object is required".to_owned()));
        },
    };
    match target_runner.get("disposition") {
        Some(JsonValue::String(s)) => {
            if crate::text::str_eq(s.as_str(), "created") {
                Ok(TargetRepoRunnerPullRequestDisposition::Create)
            } else if crate::text::str_eq(s.as_str(), "reused") {
                Ok(TargetRepoRunnerPullRequestDisposition::Reuse)
            } else {
                Err(TargetRepoRunnerRuntimeError::ReceiptProjection("target runner disposition is invalid".to_owned()))
            }
        },
        _ => Err(TargetRepoRunnerRuntimeError::ReceiptProjection("target runner disposition is invalid".to_owned())),
    }
}

/// The position of the first act of the given form.
pub open spec fn first_act(acts: Seq<ReceiptAct>, form: ActForm) -> Option<int> {
    if exists|i: int| 0 <= i < acts.len() && (#[trigger] acts[i]).form == form {
        Some(choose|i: int| 0 <= i < acts.len() && (#[trigger] acts[i]).form == form && forall|j: int| 0 <= j < i ==> (#[trigger] acts[j]).form != form)
    } else {
        None
    }
}

fn find_act(acts: &Vec<ReceiptAct>, form: ActForm) -> (r: Option<usize>)
    ensures
        match r {
            Some(i) => i < acts@.len() && acts@[i as int].form == form && forall|j: int| 0 <= j < i ==> (#[trigger] acts@[j]).form != form,
            None => forall|j: int| 0 <= j < acts@.len() ==> (#[trigger] acts@[j]).form != form,
        },
        r matches Some(i) ==> first_act(acts@, form) == Some(i as int),
        r is None <==> first_act(acts@, form) is None,
{
    let mut i: usize = 0;
    while i < acts.len()
        invariant
            i <= acts@.len(),
            forall|j: int| 0 <= j < i ==> (#[trigger] acts@[j]).form != form,
        decreases acts@.len() - i,
    {
        if acts[i].form == form {
            proof {
                let c = choose|k: int| 0 <= k < acts@.len() && (#[trigger] acts@[k]).form == form && forall|j: int| 0 <= j < k ==> (#[trigger] acts@[j]).form != form;
                assert(0 <= i < acts@.len() && acts@[i as int].form == form && forall|j: int| 0 <= j < i ==> (#[trigger] acts@[j]).form != form);
                if c < i {
                    assert(acts@[c].form != form);
                } else if c > i {
                    assert(acts@[i as int].form != form);
                }
            }
            return Some(i);
        }
        i += 1;
    }
    None
}

pub struct RevisionView {
    pub receipt_ref: ReferenceView,
    pub act_id: Seq<char>,
    pub disposition: TargetRepoRunnerPullRequestDisposition,
    pub target_repo_ref: ReferenceView,
    pub source_issue_ref: Option<ReferenceView>,
    pub source_thread_ref: ReferenceView,
    pub pull_request_ref: ReferenceView,
    pub summary: Seq<char>,
    pub metadata: Seq<(Seq<char>, JsonData)>,
}

pub open spec fn revision_view(p: TargetRepoRunnerRevisionReceiptProjection) -> RevisionView {
    RevisionView {
        receipt_ref: p.receipt_ref@,
        act_id: p.act_id@,
        disposition: p.disposition,
        target_repo_ref: p.target_repo_ref@,
        source_issue_ref: opt_ref_view(p.source_issue_ref),
        source_thread_ref: p.source_thread_ref@,
        pull_request_ref: p.pull_request_ref@,
        summary: p.summary@,
        metadata: p.metadata.view(),
    }
}

pub open spec fn receipt_ref_view(id: Seq<char>) -> ReferenceView {
    ReferenceView {
        reference_type: ReferenceType::Receipt,
        uri: runx_uri(ReferenceType::Receipt, id),
        provider: None,
        locator: None,
        label: None,
        observed_at: None,
        proof_kind: None,
    }
}

/// The revision projection of a receipt, or why it has none.
pub open spec fn revision_spec(receipt: Receipt) -> Result<RevisionView, Seq<char>> {
    if receipt.seal.disposition == ClosureDisposition::Deferred {
        Err("receipt is not sealed"@)
    } else {
        match first_act(receipt.acts@, ActForm::Revision) {
            None => Err("revision act is required"@),
            Some(i) => {
                let act = receipt.acts@[i];
                let refs = refs_view(act.artifact_refs@);
                match receipt.metadata {
                    None => Err("target runner metadata is required"@),
                    Some(metadata) => match first_of_type(refs, ReferenceType::GithubPullRequest) {
                        None => Err("pull request ref is required"@),
                        Some(pr) => match first_of_type(refs, ReferenceType::GithubRepo) {
                            None => Err("target repo ref is required"@),
                            Some(repo) => {
                                let thread = match first_of_type(refs, ReferenceType::SlackThread) {
                                    Some(t) => Some(t),
                                    None => if refs.len() > 0 {
                                        Some(refs[0])
                                    } else {
                                        None
                                    },
                                };
                                match thread {
                                    None => Err("source thread ref is required"@),
                                    Some(th) => match disposition_spec(metadata.view()) {
                                        Err(m) => Err(m),
                                        Ok(d) => Ok(RevisionView {
                                            receipt_ref: receipt_ref_view(receipt.id@),
                                            act_id: act.id@,
                                            disposition: d,
                                            target_repo_ref: repo,
                                            source_issue_ref: first_of_type(refs, ReferenceType::GithubIssue),
                                            source_thread_ref: th,
                                            pull_request_ref: pr,
                                            summary: receipt.seal.summary@,
                                            metadata: metadata.view(),
                                        }),
                                    },
                                }
                            },
                        },
                    },
                }
            },
        }
    }
}

fn projection_error(message: &str) -> (r: TargetRepoRunnerRuntimeError)
    ensures
        r matches TargetRepoRunnerRuntimeError::ReceiptProjection(m) && m@ == message@,
{
    TargetRepoRunnerRuntimeError::ReceiptProjection(message.to_owned())
}

/// Projects the public view of a sealed revision receipt: its revision
/// act's pull request, target repository, source thread (the first
/// reference when no Slack thread is recorded) and optional source issue,
/// with the pull request disposition from the target-runner metadata.
pub fn project_target_repo_runner_revision_receipt(receipt: &Receipt) -> (r: Result<TargetRepoRunnerRevisionReceiptProjection, TargetRepoRunnerRuntimeError>)
    ensures
        match revision_spec(*receipt) {
            Ok(v) => r matches Ok(p) && revision_view(p) == v,
            Err(m) => r matches Err(TargetRepoRunnerRuntimeError::ReceiptProjection(x)) && x@ == m,
        },
{
    if receipt.seal.disposition == ClosureDisposition::Deferred {
        return Err(projection_error("receipt is not sealed"));
    }
    let i = match find_act(&receipt.acts, ActForm::Revision) {
        None => return Err(projection_error("revision act is required")),
        Some(i) => i,
    };
    let act = &receipt.acts[i];
    let metadata = match &receipt.metadata {
        None => return Err(projection_error("target runner metadata is required")),
        Some(m) => m,
    };
    let pull_request_ref = match find_ref(&act.artifact_refs, ReferenceType::GithubPullRequest) {
        None => return Err(projection_error("pull request ref is required")),
        Some(r) => r,
    };
    let target_repo_ref = match find_ref(&act.artifact_refs, ReferenceType::GithubRepo) {
        None => return Err(projection_error("target repo ref is required")),
        Some(r) => r,
    };
    let source_thread_ref = match find_ref(&act.artifact_refs, ReferenceType::SlackThread) {
        Some(r) => r,
        None => {
            if act.artifact_refs.len() > 0 {
                act.artifact_refs[0].copy()
            } else {
                return Err(projection_error("source thread ref is required"));
            }
        },
    };
    let source_issue_ref = find_ref(&act.artifact_refs, ReferenceType::GithubIssue);
    let disposition = match projection_disposition(metadata) {
        Err(e) => return Err(e),
        Ok(d) => d,
    };
    Ok(TargetRepoRunnerRevisionReceiptProjection {
        receipt_ref: Reference::runx(ReferenceType::Receipt, receipt.id.as_str()),
        act_id: act.id.clone(),
        disposition,
        target_repo_ref,
        source_issue_ref,
        source_thread_ref,
        pull_request_ref,
        summary: receipt.seal.summary.clone(),
        metadata: metadata.copy(),
    })
}

/// A reference that a source publication reports as published: anything
/// but the pull request, the source thread and the source issue.
pub open spec fn is_published(r: ReferenceView) -> bool {
    r.reference_type != ReferenceType::GithubPullRequest && r.reference_type != ReferenceType::SlackThread
        && r.reference_type != ReferenceType::GithubIssue
}

/// The references of `refs` that a publication reports, in order.
pub open spec fn published_of(refs: Seq<ReferenceView>) -> Seq<ReferenceView> {
    refs.filter(|x: ReferenceView| is_published(x))
}

pub struct PublicationView {
    pub receipt_ref: ReferenceView,
    pub source_issue_ref: Option<ReferenceView>,
    pub source_thread_ref: ReferenceView,
    pub pull_request_ref: ReferenceView,
    pub published_refs: Seq<ReferenceView>,
    pub summary: Seq<char>,
    pub metadata: Seq<(Seq<char>, JsonData)>,
}

pub open spec fn publication_view(p: TargetRepoRunnerSourcePublicationProjection) -> PublicationView {
    PublicationView {
        receipt_ref: p.receipt_ref@,
        source_issue_ref: opt_ref_view(p.source_issue_ref),
        source_thread_ref: p.source_thread_ref@,
        pull_request_ref: p.pull_request_ref@,
        published_refs: refs_view(p.published_refs@),
        summary: p.summary@,
        metadata: p.metadata.view(),
    }
}

/// The source-publication projection of a receipt, or why it has none.
pub open spec fn publication_spec(receipt: Receipt) -> Result<PublicationView, Seq<char>> {
    if receipt.seal.disposition == ClosureDisposition::Deferred {
        Err("source publication receipt is not sealed"@)
    } else {
        match first_act(receipt.acts@, ActForm::Reply) {
            None => Err("source publication reply act is required"@),
            Some(i) => {
                let act = receipt.acts@[i];
                let refs = refs_view(act.artifact_refs@);
                match receipt.metadata {
                    None => Err("source publication metadata is required"@),
                    Some(metadata) => match first_of_type(refs, ReferenceType::GithubPullRequest) {
                        None => Err("source publication pull request ref is required"@),
                        Some(pr) => match first_of_type(refs, ReferenceType::SlackThread) {
                            None => Err("source publication thread ref is required"@),
                            Some(th) => Ok(PublicationView {
                                receipt_ref: receipt_ref_view(receipt.id@),
                                source_issue_ref: first_of_type(refs, ReferenceType::GithubIssue),
                                source_thread_ref: th,
                                pull_request_ref: pr,
                                published_refs: published_of(refs),
                                summary: receipt.seal.summary@,
                                metadata: metadata.view(),
                            }),
                        },
                    },
                }
            },
        }
    }
}

/// The references of `refs` that a publication reports, in order.
pub fn published_refs_of(refs: &Vec<Reference>) -> (r: Vec<Reference>)
    ensures
        refs_view(r@) == published_of(refs_view(refs@)),
{
    let ghost v = refs_view(refs@);
    let mut out: Vec<Reference> = Vec::new();
    let mut i: usize = 0;
    while i < refs.len()
        invariant
            i <= refs@.len(),
            v == refs_view(refs@),
            v.len() == refs@.len(),
            refs_view(out@) == published_of(v.take(i as int)),
        decreases refs@.len() - i,
    {
        proof {
            assert(v.take(i + 1).drop_last() =~= v.take(i as int));
            reveal(Seq::filter);
        }
        if refs[i].reference_type != ReferenceType::GithubPullRequest && refs[i].reference_type
            != ReferenceType::SlackThread && refs[i].reference_type != ReferenceType::GithubIssue {
            let ghost before = out@;
            out.push(refs[i].copy());
            proof {
                assert(refs_view(out@) =~= refs_view(before).push(refs@[i as int]@));
            }
        }
        i += 1;
    }
    proof {
        assert(v.take(refs@.len() as int) =~= v);
    }
    out
}

/// Projects the public view of a sealed source-publication receipt: its
/// reply act's pull request, Slack thread and optional source issue, and
/// every other reference of the act as published.
pub fn project_target_repo_runner_source_publication_receipt(receipt: &Receipt) -> (r: Result<TargetRepoRunnerSourcePublicationProjection, TargetRepoRunnerRuntimeError>)
    ensures
        match publication_spec(*receipt) {
            Ok(v) => r matches Ok(p) && publication_view(p) == v,
            Err(m) => r matches Err(TargetRepoRunnerRuntimeError::ReceiptProjection(x)) && x@ == m,
        },
{
    if receipt.seal.disposition == ClosureDisposition::Deferred {
        return Err(projection_error("source publication receipt is not sealed"));
    }
    let i = match find_act(&receipt.acts, ActForm::Reply) {
        None => return Err(projection_error("source publication reply act is required")),
        Some(i) => i,
    };
    let act = &receipt.acts[i];
    let metadata = match &receipt.metadata {
        None => return Err(projection_error("source publication metadata is required")),
        Some(m) => m,
    };
    let pull_request_ref = match find_ref(&act.artifact_refs, ReferenceType::GithubPullRequest) {
        None => return Err(projection_error("source publication pull request ref is required")),
        Some(r) => r,
    };
    let source_thread_ref = match find_ref(&act.artifact_refs, ReferenceType::SlackThread) {
        None => return Err(projection_error("source publication thread ref is required")),
        Some(r) => r,
    };
    let source_issue_ref = find_ref(&act.artifact_refs, ReferenceType::GithubIssue);
    let published_refs = published_refs_of(&act.artifact_refs);
    Ok(TargetRepoRunnerSourcePublicationProjection {
        receipt_ref: Reference::runx(ReferenceType::Receipt, receipt.id.as_str()),
        source_issue_ref,
        source_thread_ref,
        pull_request_ref,
        published_refs,
        summary: receipt.seal.summary.clone(),
        metadata: metadata.copy(),
    })
}

/// A publication never reports the pull request, the source thread or the
/// source issue as published, and reports every other reference of the
/// reply act.
pub proof fn law_published_refs_exclude_targets(refs: Seq<ReferenceView>)
    ensures
        forall|i: int| 0 <= i < published_of(refs).len() ==> is_published(#[trigger] published_of(refs)[i]),
        forall|i: int| 0 <= i < refs.len() && is_published(#[trigger] refs[i]) ==> published_of(refs).contains(refs[i]),
{
    broadcast use vstd::seq_lib::group_filter_ensures;

}


/// The recorded disposition reads as what it says: where the metadata's
/// `target_runner` object holds a string `s` under `disposition`, the
/// projection creates exactly when `s` is `created`, reuses exactly when
/// `s` is `reused`, and is refused for any other string; two accepted
/// strings that differ give different dispositions.
pub proof fn law_disposition_reads_as_recorded(
    metadata: Seq<(Seq<char>, JsonData)>,
    other: Seq<(Seq<char>, JsonData)>,
    t: Seq<(Seq<char>, JsonData)>,
    u: Seq<(Seq<char>, JsonData)>,
    s: Seq<char>,
    w: Seq<char>,
)
    ensures
        lookup(metadata, "target_runner"@) == Some(JsonData::Object(t)) && lookup(t, "disposition"@) == Some(
            JsonData::Str(s),
        ) ==> {
            &&& (disposition_spec(metadata) == Ok::<TargetRepoRunnerPullRequestDisposition, Seq<char>>(
                TargetRepoRunnerPullRequestDisposition::Create) <==> s == "created"@)
            &&& (disposition_spec(metadata) == Ok::<TargetRepoRunnerPullRequestDisposition, Seq<char>>(
                TargetRepoRunnerPullRequestDisposition::Reuse) <==> s == "reused"@)
            &&& (disposition_spec(metadata) is Err <==> (s != "created"@ && s != "reused"@))
        },
        lookup(metadata, "target_runner"@) == Some(JsonData::Object(t)) && lookup(t, "disposition"@) == Some(
            JsonData::Str(s),
        ) && lookup(other, "target_runner"@) == Some(JsonData::Object(u)) && lookup(u, "disposition"@) == Some(
            JsonData::Str(w),
        ) && disposition_spec(metadata) is Ok && disposition_spec(other) is Ok ==> (disposition_spec(metadata)
            == disposition_spec(other) <==> s == w),
{
    reveal_strlit("created");
    reveal_strlit("reused");
    assert("created"@ != "reused"@) by {
        assert("created"@[0] != "reused"@[0]);
    }
}

} // verus!
