//! Post-merge observer publication: the local publication ledger, the
//! commands that publish a sealed closure back to its source, and the
//! checks on what the provider reads back.
use vstd::prelude::*;
use crate::reference::{
    Reference, ReferenceType, ReferenceView, opt_str, same_ref, same_ref_identity,
    same_reference, same_reference_identity, copy_refs,
};
use crate::receipt::HarnessReceipt;
use crate::text::{
    trim, is_blank, words, join, split_whitespace, join_strings, trim_by, in_set, trim_chars,
    starts_with, starts_with_str, upper, ascii_uppercase, str_eq,
};

verus! {

// ---------------------------------------------------------------------
// The publication ledger.
// ---------------------------------------------------------------------

/// The publication keys already published from this process.
#[derive(Debug, PartialEq)]
pub struct PostMergeObserverPublicationLedger {
    published_keys: Vec<String>,
}

impl PostMergeObserverPublicationLedger {
    /// The set of published keys.
    pub closed spec fn view(&self) -> Set<Seq<char>> {
        Set::new(|k: Seq<char>| exists|i: int| 0 <= i < self.published_keys@.len() && #[trigger] self.published_keys@[i]@ == k)
    }

    #[verifier::type_invariant]
    closed spec fn keys_distinct(&self) -> bool {
        forall|i: int, j: int|
            0 <= i < self.published_keys@.len() && 0 <= j < self.published_keys@.len() && i != j
                ==> #[trigger] self.published_keys@[i]@ != #[trigger] self.published_keys@[j]@
    }

    /// An empty ledger.
    pub fn new() -> (r: Self)
        ensures
            r.view() == Set::<Seq<char>>::empty(),
    {
        let r = PostMergeObserverPublicationLedger { published_keys: Vec::new() };
        assert(r.view() =~= Set::<Seq<char>>::empty());
        r
    }

    /// Whether `publication_key` was published.
    pub fn contains(&self, publication_key: &str) -> (r: bool)
        ensures
            r == self.view().contains(publication_key@),
    {
        let mut i: usize = 0;
        while i < self.published_keys.len()
            invariant
                i <= self.published_keys@.len(),
                forall|j: int| 0 <= j < i ==> self.published_keys@[j]@ != publication_key@,
            decreases self.published_keys@.len() - i,
        {
            if str_eq(self.published_keys[i].as_str(), publication_key) {
                return true;
            }
            i += 1;
        }
        false
    }

    /// Records `publication_key` as published.
    pub fn mark_published(&mut self, publication_key: &str)
        ensures
            final(self).view() == old(self).view().insert(publication_key@),
    {
        proof {
            use_type_invariant(&*self);
        }
        if self.contains(publication_key) {
            return;
        }
        let ghost before = self.published_keys@;
        let mut keys = Vec::new();
        std::mem::swap(&mut keys, &mut self.published_keys);
        keys.push(publication_key.to_owned());
        self.published_keys = keys;
        assert(self.published_keys@ == before.push(self.published_keys@.last()));
        assert(self.view() =~= old(self).view().insert(publication_key@)) by {
            assert forall|k: Seq<char>| self.view().contains(k) == old(self).view().insert(publication_key@).contains(k) by {
                if self.view().contains(k) {
                    let i = choose|i: int| 0 <= i < self.published_keys@.len() && #[trigger] self.published_keys@[i]@ == k;
                    if i < before.len() {
                        assert(before[i]@ == k);
                    }
                }
                if old(self).view().contains(k) {
                    let i = choose|i: int| 0 <= i < before.len() && #[trigger] before[i]@ == k;
                    assert(self.published_keys@[i]@ == k);
                }
                if k == publication_key@ {
                    assert(self.published_keys@[before.len() as int]@ == k);
                }
            }
        }
    }
}

/// A key once marked stays marked, and marking it again changes nothing.
pub proof fn law_ledger_mark_is_idempotent(before: Set<Seq<char>>, key: Seq<char>)
    ensures
        before.insert(key).contains(key),
        before.insert(key).insert(key) == before.insert(key),
{
    assert(before.insert(key).insert(key) =~= before.insert(key));
}

// ---------------------------------------------------------------------
// Plans, projections and commands.
// ---------------------------------------------------------------------

#[derive(Clone, Copy, Debug, PartialEq, Eq, Structural)]
pub enum PostMergeObserverSignalSource {
    Webhook,
    Schedule,
    Manual,
}

#[derive(Clone, Copy, Debug, PartialEq, Eq, Structural)]
pub enum PostMergeObserverRuntimeDecision {
    SealAndPublish,
    AlreadyPublished,
}

#[derive(Clone, Copy, Debug, PartialEq, Eq, Structural)]
pub enum PostMergeSourceIssueDisposition {
    Close,
    KeepOpen,
}

#[derive(Clone, Copy, Debug, PartialEq, Eq, Structural)]
pub enum PostMergeObserverPublicationRuntimeDecision {
    Publish,
    AlreadyPublished,
}

/// How one sealed receipt is deduplicated and published.
#[derive(Clone, Debug, PartialEq)]
pub struct PostMergeObserverRuntimeDedupePlan {
    pub decision: PostMergeObserverRuntimeDecision,
    pub signal_source: PostMergeObserverSignalSource,
    pub lock_key: String,
    pub receipt_id: String,
    pub receipt_ref: Reference,
    pub publication_key: String,
    pub content_hash: String,
}

/// The public view of a sealed post-merge closure.
#[derive(Clone, Debug, PartialEq)]
pub struct PostMergeObserverPublicationProjection {
    pub harness_receipt_ref: Reference,
    pub source_issue_ref: Reference,
    pub source_thread_ref: Option<Reference>,
    pub pull_request_ref: Reference,
    pub reason_code: String,
    pub close_authorized: bool,
    pub source_issue_disposition: PostMergeSourceIssueDisposition,
    pub summary: String,
    pub merge_sha: Option<String>,
    pub verification_criterion_id: Option<String>,
    pub verification_summary: Option<String>,
    pub proof_criterion_id: String,
}

#[derive(Clone, Debug, PartialEq)]
pub enum PostMergeObserverPublicationCommand {
    SourceIssueComment { publication_key: String, target: Reference, receipt_ref: Reference, body: String },
    SourceThreadReply { publication_key: String, target: Reference, receipt_ref: Reference, body: String },
    SourceIssueClose { publication_key: String, target: Reference, receipt_ref: Reference, reason_code: String },
}

/// The mathematical view of a publication command: its kind (0 comment,
/// 1 thread reply, 2 close), key, target, receipt and text (body or reason).
pub struct CommandView {
    pub kind: nat,
    pub publication_key: Seq<char>,
    pub target: ReferenceView,
    pub receipt_ref: ReferenceView,
    pub text: Seq<char>,
}

impl View for PostMergeObserverPublicationCommand {
    type V = CommandView;

    open spec fn view(&self) -> CommandView {
        match self {
            PostMergeObserverPublicationCommand::SourceIssueComment { publication_key, target, receipt_ref, body } =>
                CommandView { kind: 0, publication_key: publication_key@, target: target@, receipt_ref: receipt_ref@, text: body@ },
            PostMergeObserverPublicationCommand::SourceThreadReply { publication_key, target, receipt_ref, body } =>
                CommandView { kind: 1, publication_key: publication_key@, target: target@, receipt_ref: receipt_ref@, text: body@ },
            PostMergeObserverPublicationCommand::SourceIssueClose { publication_key, target, receipt_ref, reason_code } =>
                CommandView { kind: 2, publication_key: publication_key@, target: target@, receipt_ref: receipt_ref@, text: reason_code@ },
        }
    }
}

pub open spec fn commands_view(cmds: Seq<PostMergeObserverPublicationCommand>) -> Seq<CommandView> {
    cmds.map_values(|c: PostMergeObserverPublicationCommand| c@)
}

/// What the runtime decided for one publication.
#[derive(Clone, Debug, PartialEq)]
pub struct PostMergeObserverPublicationRuntime {
    pub decision: PostMergeObserverPublicationRuntimeDecision,
    pub publication_key: String,
    pub receipt_ref: Reference,
    pub commands: Vec<PostMergeObserverPublicationCommand>,
}

#[derive(Clone, Debug, PartialEq)]
pub struct PostMergeObserverSourcePublicationRequest {
    pub publication_key: String,
    pub receipt_ref: Reference,
    pub source_issue_ref: Reference,
    pub source_thread_ref: Reference,
    pub pull_request_ref: Reference,
    pub reason_code: String,
    pub close_source_issue: bool,
    pub commands: Vec<PostMergeObserverPublicationCommand>,
}

#[derive(Clone, Debug, PartialEq)]
pub struct PostMergeObserverSourcePublicationObservation {
    pub source_issue_ref: Reference,
    pub source_thread_ref: Reference,
    pub pull_request_ref: Reference,
    pub receipt_ref: Reference,
    pub published_refs: Vec<Reference>,
    pub closed_ref: Option<Reference>,
}

#[derive(Clone, Debug, PartialEq)]
pub struct PostMergeObserverSourcePublicationReadback {
    pub request: PostMergeObserverSourcePublicationRequest,
    pub observation: PostMergeObserverSourcePublicationObservation,
    pub proof_refs: Vec<Reference>,
}

/// A failed adapter operation.
#[derive(Clone, Debug, PartialEq)]
pub struct PostMergeObserverAdapterError {
    pub operation: &'static str,
    pub message: String,
}

impl PostMergeObserverAdapterError {
    pub fn new(operation: &'static str, message: String) -> (r: Self)
        ensures
            r.operation == operation,
            r.message@ == message@,
    {
        PostMergeObserverAdapterError { operation, message }
    }
}

#[derive(Clone, Debug, PartialEq)]
pub enum PostMergeObserverRuntimeError {
    Adapter(PostMergeObserverAdapterError),
    Projection(String),
    ObservedClosureMismatch { observed_reason_code: String, receipt_reason_code: String },
    ReceiptMismatch { dedupe_receipt_id: String, receipt_id: String },
    ReceiptRefMismatch { dedupe_receipt_ref: String, receipt_ref: String },
    MissingSourceThreadTarget,
    MissingSourceThreadMetadata,
    SourcePublicationMismatch(String),
}

// ---------------------------------------------------------------------
// Public reply text.
// ---------------------------------------------------------------------

pub open spec fn punctuation() -> Seq<char> {
    seq!['.', ',', ';', ':', ')', '(', '"', '\'', '[', ']']
}

/// The token names a local path or a credential assignment.
pub open spec fn sensitive_token(trimmed: Seq<char>) -> bool {
    let up = upper(trimmed);
    ||| starts_with(trimmed, "/Users/"@)
    ||| starts_with(trimmed, "/home/"@)
    ||| starts_with(trimmed, "/var/folders/"@)
    ||| starts_with(trimmed, "/private/"@)
    ||| starts_with(up, "TOKEN="@)
    ||| starts_with(up, "SECRET="@)
    ||| starts_with(up, "PASSWORD="@)
    ||| starts_with(up, "API_KEY="@)
    ||| starts_with(up, "OPENAI_API_KEY="@)
}

pub open spec fn sanitized_token(token: Seq<char>) -> Seq<char> {
    if sensitive_token(trim_by(token, in_set(punctuation()))) {
        "[redacted]"@
    } else {
        token
    }
}

/// Every word of the text, with local paths and credential assignments
/// replaced by `[redacted]`, joined by single spaces.
pub open spec fn sanitized_text(text: Seq<char>) -> Seq<char> {
    join(words(text).map_values(|w: Seq<char>| sanitized_token(w)), " "@)
}

/// Redacts one token.
pub fn sanitize_token(token: &str) -> (r: String)
    ensures
        r@ == sanitized_token(token@),
{
    let punct: [char; 10] = ['.', ',', ';', ':', ')', '(', '"', '\'', '[', ']'];
    proof {
        assert(punct@ =~= punctuation());
    }
    let trimmed = trim_chars(token, &punct);
    let up = ascii_uppercase(trimmed.as_str());
    let t = trimmed.as_str();
    let u = up.as_str();
    if starts_with_str(t, "/Users/") || starts_with_str(t, "/home/") || starts_with_str(
        t,
        "/var/folders/",
    ) || starts_with_str(t, "/private/") || starts_with_str(u, "TOKEN=") || starts_with_str(
        u,
        "SECRET=",
    ) || starts_with_str(u, "PASSWORD=") || starts_with_str(u, "API_KEY=") || starts_with_str(
        u,
        "OPENAI_API_KEY=",
    ) {
        "[redacted]".to_owned()
    } else {
        token.to_owned()
    }
}

/// Redacts every token of `text` and normalizes whitespace.
pub fn sanitize_public_text(text: &str) -> (r: String)
    ensures
        r@ == sanitized_text(text@),
{
    let tokens = split_whitespace(text);
    let mut out: Vec<String> = Vec::new();
    let mut i: usize = 0;
    while i < tokens.len()
        invariant
            i <= tokens@.len(),
            tokens@.len() == words(text@).len(),
            forall|j: int| 0 <= j < tokens@.len() ==> #[trigger] tokens@[j]@ == words(text@)[j],
            out@.len() == i,
            forall|j: int| 0 <= j < i ==> #[trigger] out@[j]@ == sanitized_token(tokens@[j]@),
        decreases tokens@.len() - i,
    {
        out.push(sanitize_token(tokens[i].as_str()));
        i += 1;
    }
    let r = join_strings(&out, " ");
    proof {
        assert(out@.map_values(|p: String| p@) =~= words(text@).map_values(
            |w: Seq<char>| sanitized_token(w),
        ));
    }
    r
}

pub open spec fn or_text(o: Option<String>, fallback: Seq<char>) -> Seq<char> {
    match o {
        Some(s) => s@,
        None => fallback,
    }
}

pub open spec fn close_planned(p: PostMergeObserverPublicationProjection) -> bool {
    p.close_authorized && p.source_issue_disposition == PostMergeSourceIssueDisposition::Close
}

/// The next step a human takes after this closure.
pub open spec fn next_action(p: PostMergeObserverPublicationProjection) -> Seq<char> {
    if close_planned(p) {
        "none"@
    } else if p.reason_code@ == "failed_verification"@ {
        "review_failed_verification"@
    } else if p.reason_code@ == "merged_pending_verification"@ {
        "wait_for_verification"@
    } else {
        "review_source_issue"@
    }
}

pub fn next_human_action(p: &PostMergeObserverPublicationProjection) -> (r: &'static str)
    ensures
        r@ == next_action(*p),
{
    if p.close_authorized && p.source_issue_disposition == PostMergeSourceIssueDisposition::Close {
        return "none";
    }
    if str_eq(p.reason_code.as_str(), "failed_verification") {
        "review_failed_verification"
    } else if str_eq(p.reason_code.as_str(), "merged_pending_verification") {
        "wait_for_verification"
    } else {
        "review_source_issue"
    }
}

/// The reply text before redaction.
pub open spec fn reply_text(p: PostMergeObserverPublicationProjection) -> Seq<char> {
    "Post-merge observer: "@ + p.summary@ + ". Source issue: "@ + p.source_issue_ref.uri@
        + ". Target PR: "@ + p.pull_request_ref.uri@ + ". Merge: "@ + or_text(p.merge_sha, "not_available"@)
        + ". Review gate: external_human. Closure: "@ + p.reason_code@ + ". Verification: "@
        + or_text(p.verification_criterion_id, "not_required"@) + ". Verification summary: "@
        + or_text(p.verification_summary, "not_required"@) + ". Proof: "@ + p.proof_criterion_id@
        + ". Next: "@ + next_action(p) + ". Receipt: "@ + p.harness_receipt_ref.uri@ + "."@
}

fn append_or(out: &mut String, o: &Option<String>, fallback: &str)
    ensures
        final(out)@ == old(out)@ + or_text(*o, fallback@),
{
    match o {
        Some(s) => out.append(s.as_str()),
        None => out.append(fallback),
    }
}

/// The redacted public reply for a closure.
pub fn public_reply_body(p: &PostMergeObserverPublicationProjection) -> (r: String)
    ensures
        r@ == sanitized_text(reply_text(*p)),
{
    let mut t = "Post-merge observer: ".to_owned();
    t.append(p.summary.as_str());
    t.append(". Source issue: ");
    t.append(p.source_issue_ref.uri.as_str());
    t.append(". Target PR: ");
    t.append(p.pull_request_ref.uri.as_str());
    t.append(". Merge: ");
    append_or(&mut t, &p.merge_sha, "not_available");
    t.append(". Review gate: external_human. Closure: ");
    t.append(p.reason_code.as_str());
    t.append(". Verification: ");
    append_or(&mut t, &p.verification_criterion_id, "not_required");
    t.append(". Verification summary: ");
    append_or(&mut t, &p.verification_summary, "not_required");
    t.append(". Proof: ");
    t.append(p.proof_criterion_id.as_str());
    t.append(". Next: ");
    t.append(next_human_action(p));
    t.append(". Receipt: ");
    t.append(p.harness_receipt_ref.uri.as_str());
    t.append(".");
    sanitize_public_text(t.as_str())
}

// ---------------------------------------------------------------------
// Source-thread checks.
// ---------------------------------------------------------------------

pub open spec fn blank_opt(o: Option<Seq<char>>) -> bool {
    match o {
        Some(s) => trim(s).len() == 0,
        None => true,
    }
}

fn blank_opt_exec(o: &Option<String>) -> (r: bool)
    ensures
        r == blank_opt(opt_str(*o)),
{
    match o {
        Some(s) => is_blank(s.as_str()),
        None => true,
    }
}

/// The ruling on a source-thread target.
pub open spec fn thread_metadata_ruling(r: ReferenceView) -> Result<(), PostMergeObserverRuntimeError> {
    if r.reference_type != ReferenceType::SlackThread {
        Err(PostMergeObserverRuntimeError::MissingSourceThreadTarget)
    } else if blank_opt(r.provider) || blank_opt(r.locator) {
        Err(PostMergeObserverRuntimeError::MissingSourceThreadMetadata)
    } else {
        Ok(())
    }
}

/// A source-thread target is a Slack thread with provider and locator.
pub fn require_source_thread_metadata(reference: &Reference) -> (r: Result<(), PostMergeObserverRuntimeError>)
    ensures
        r == thread_metadata_ruling(reference@),
{
    if reference.reference_type != ReferenceType::SlackThread {
        return Err(PostMergeObserverRuntimeError::MissingSourceThreadTarget);
    }
    if blank_opt_exec(&reference.provider) || blank_opt_exec(&reference.locator) {
        return Err(PostMergeObserverRuntimeError::MissingSourceThreadMetadata);
    }
    Ok(())
}

pub open spec fn thread_target_ruling(p: PostMergeObserverPublicationProjection) -> Result<(), PostMergeObserverRuntimeError> {
    match p.source_thread_ref {
        None => Err(PostMergeObserverRuntimeError::MissingSourceThreadTarget),
        Some(t) => thread_metadata_ruling(t@),
    }
}

/// The commands that publish a closure: a comment on the source issue, a
/// reply in the source thread and, when closing is authorized and planned,
/// a close of the source issue.
pub open spec fn planned_commands(key: Seq<char>, p: PostMergeObserverPublicationProjection) -> Seq<CommandView> {
    let body = sanitized_text(reply_text(p));
    let base = seq![
        CommandView { kind: 0, publication_key: key, target: p.source_issue_ref@, receipt_ref: p.harness_receipt_ref@, text: body },
        CommandView { kind: 1, publication_key: key, target: p.source_thread_ref.unwrap()@, receipt_ref: p.harness_receipt_ref@, text: body },
    ];
    if close_planned(p) {
        base.push(CommandView { kind: 2, publication_key: key, target: p.source_issue_ref@, receipt_ref: p.harness_receipt_ref@, text: p.reason_code@ })
    } else {
        base
    }
}

/// Builds the publication commands for a closure.
pub fn publication_commands(
    publication_key: &str,
    projection: &PostMergeObserverPublicationProjection,
) -> (r: Result<Vec<PostMergeObserverPublicationCommand>, PostMergeObserverRuntimeError>)
    ensures
        thread_target_ruling(*projection) is Err ==> r == Err::<Vec<PostMergeObserverPublicationCommand>, _>(thread_target_ruling(*projection)->Err_0),
        thread_target_ruling(*projection) is Ok ==> (r matches Ok(cmds) && commands_view(cmds@) == planned_commands(publication_key@, *projection)),
{
    let thread = match &projection.source_thread_ref {
        Some(t) => t,
        None => {
            return Err(PostMergeObserverRuntimeError::MissingSourceThreadTarget);
        },
    };
    match require_source_thread_metadata(thread) {
        Ok(()) => {},
        Err(e) => {
            return Err(e);
        },
    }
    let body = public_reply_body(projection);
    let mut commands: Vec<PostMergeObserverPublicationCommand> = Vec::new();
    commands.push(
        PostMergeObserverPublicationCommand::SourceIssueComment {
            publication_key: publication_key.to_owned(),
            target: projection.source_issue_ref.copy(),
            receipt_ref: projection.harness_receipt_ref.copy(),
            body: body.clone(),
        },
    );
    commands.push(
        PostMergeObserverPublicationCommand::SourceThreadReply {
            publication_key: publication_key.to_owned(),
            target: thread.copy(),
            receipt_ref: projection.harness_receipt_ref.copy(),
            body,
        },
    );
    if projection.close_authorized && projection.source_issue_disposition
        == PostMergeSourceIssueDisposition::Close {
        commands.push(
            PostMergeObserverPublicationCommand::SourceIssueClose {
                publication_key: publication_key.to_owned(),
                target: projection.source_issue_ref.copy(),
                receipt_ref: projection.harness_receipt_ref.copy(),
                reason_code: projection.reason_code.clone(),
            },
        );
    }
    assert(commands_view(commands@) =~= planned_commands(publication_key@, *projection));
    Ok(commands)
}

// ---------------------------------------------------------------------
// Dedupe and planning.
// ---------------------------------------------------------------------

/// The dedupe plan that a sealed receipt implies.
pub fn sealed_receipt_dedupe_plan(
    sealed_receipt: &HarnessReceipt,
    signal_source: PostMergeObserverSignalSource,
) -> (r: PostMergeObserverRuntimeDedupePlan)
    ensures
        r.decision == PostMergeObserverRuntimeDecision::SealAndPublish,
        r.signal_source == signal_source,
        r.lock_key@ == "post-merge-observer:"@ + sealed_receipt.harness.idempotency.content_hash@,
        r.receipt_id@ == sealed_receipt.id@,
        r.receipt_ref@ == (ReferenceView {
            reference_type: ReferenceType::HarnessReceipt,
            uri: "runx:harness_receipt:"@ + sealed_receipt.id@,
            provider: None,
            locator: Some(sealed_receipt.seal.digest@),
            label: Some("post-merge observer harness receipt"@),
            observed_at: Some(sealed_receipt.seal.closed_at@),
            proof_kind: None,
        }),
        r.publication_key@ == "post-merge-publication:"@ + sealed_receipt.harness.idempotency.intent_key@
            + ":"@ + sealed_receipt.harness.idempotency.content_hash@,
        r.content_hash@ == sealed_receipt.harness.idempotency.content_hash@,
{
    let mut lock_key = "post-merge-observer:".to_owned();
    lock_key.append(sealed_receipt.harness.idempotency.content_hash.as_str());
    let mut uri = "runx:harness_receipt:".to_owned();
    uri.append(sealed_receipt.id.as_str());
    let mut publication_key = "post-merge-publication:".to_owned();
    publication_key.append(sealed_receipt.harness.idempotency.intent_key.as_str());
    publication_key.append(":");
    publication_key.append(sealed_receipt.harness.idempotency.content_hash.as_str());
    PostMergeObserverRuntimeDedupePlan {
        decision: PostMergeObserverRuntimeDecision::SealAndPublish,
        signal_source,
        lock_key,
        receipt_id: sealed_receipt.id.clone(),
        receipt_ref: Reference {
            reference_type: ReferenceType::HarnessReceipt,
            uri,
            provider: None,
            locator: Some(sealed_receipt.seal.digest.clone()),
            label: Some("post-merge observer harness receipt".to_owned()),
            observed_at: Some(sealed_receipt.seal.closed_at.clone()),
            proof_kind: None,
        },
        publication_key,
        content_hash: sealed_receipt.harness.idempotency.content_hash.clone(),
    }
}

/// The closure observed for a merge must be the one the sealed receipt
/// records: an observed reason code other than the seal's is refused with
/// both codes.
pub fn require_observed_closure_reason(
    observed_reason_code: String,
    sealed_receipt: &HarnessReceipt,
) -> (r: Result<(), PostMergeObserverRuntimeError>)
    ensures
        observed_reason_code@ == sealed_receipt.seal.reason_code@ <==> r is Ok,
        r matches Err(e) ==> (e matches PostMergeObserverRuntimeError::ObservedClosureMismatch {
            observed_reason_code: o,
            receipt_reason_code: c,
        } && o@ == observed_reason_code@ && c@ == sealed_receipt.seal.reason_code@),
{
    if observed_reason_code != sealed_receipt.seal.reason_code {
        return Err(
            PostMergeObserverRuntimeError::ObservedClosureMismatch {
                observed_reason_code,
                receipt_reason_code: sealed_receipt.seal.reason_code.clone(),
            },
        );
    }
    Ok(())
}

/// Whether a plan publishes or finds the publication already done.
pub open spec fn already_published(
    dedupe: PostMergeObserverRuntimeDedupePlan,
    ledger: Set<Seq<char>>,
) -> bool {
    dedupe.decision == PostMergeObserverRuntimeDecision::AlreadyPublished || ledger.contains(
        dedupe.publication_key@,
    )
}

/// The planning ruling: which mismatch refuses the plan, if any.
pub open spec fn plan_refusal(
    dedupe: PostMergeObserverRuntimeDedupePlan,
    receipt: HarnessReceipt,
    projection: PostMergeObserverPublicationProjection,
    ledger: Set<Seq<char>>,
) -> Option<nat> {
    if dedupe.receipt_id@ != receipt.id@ {
        Some(0)
    } else if dedupe.receipt_ref.uri@ != projection.harness_receipt_ref.uri@ {
        Some(1)
    } else if !already_published(dedupe, ledger) && thread_target_ruling(projection) is Err {
        Some(2)
    } else {
        None
    }
}

/// `e` is the error that refuses the plan, for the refusal `plan_refusal`
/// rules: a receipt id mismatch names both ids, a receipt reference
/// mismatch both references, and a missing or bare thread target is the
/// thread target ruling's error.
pub open spec fn plan_refused_with(
    e: PostMergeObserverRuntimeError,
    dedupe: PostMergeObserverRuntimeDedupePlan,
    receipt: HarnessReceipt,
    projection: PostMergeObserverPublicationProjection,
    ledger: Set<Seq<char>>,
) -> bool {
    match plan_refusal(dedupe, receipt, projection, ledger) {
        Some(k) => if k == 0 {
            e matches PostMergeObserverRuntimeError::ReceiptMismatch { dedupe_receipt_id, receipt_id }
                && dedupe_receipt_id@ == dedupe.receipt_id@ && receipt_id@ == receipt.id@
        } else if k == 1 {
            e matches PostMergeObserverRuntimeError::ReceiptRefMismatch { dedupe_receipt_ref, receipt_ref }
                && dedupe_receipt_ref@ == dedupe.receipt_ref.uri@ && receipt_ref@ == projection.harness_receipt_ref.uri@
        } else {
            e == thread_target_ruling(projection)->Err_0
        },
        None => false,
    }
}

/// Plans the publication of a sealed closure against the ledger.
pub fn plan_post_merge_observer_publication_commands(
    dedupe: &PostMergeObserverRuntimeDedupePlan,
    sealed_receipt: &HarnessReceipt,
    projection: &PostMergeObserverPublicationProjection,
    ledger: &PostMergeObserverPublicationLedger,
) -> (r: Result<PostMergeObserverPublicationRuntime, PostMergeObserverRuntimeError>)
    ensures
        plan_refusal(*dedupe, *sealed_receipt, *projection, ledger.view()) is Some ==> (r matches Err(e)
            && plan_refused_with(e, *dedupe, *sealed_receipt, *projection, ledger.view())),
        plan_refusal(*dedupe, *sealed_receipt, *projection, ledger.view()) is None ==> (r matches Ok(rt) && {
            &&& rt.publication_key@ == dedupe.publication_key@
            &&& rt.receipt_ref@ == projection.harness_receipt_ref@
            &&& if already_published(*dedupe, ledger.view()) {
                rt.decision == PostMergeObserverPublicationRuntimeDecision::AlreadyPublished
                    && rt.commands@.len() == 0
            } else {
                rt.decision == PostMergeObserverPublicationRuntimeDecision::Publish
                    && commands_view(rt.commands@) == planned_commands(dedupe.publication_key@, *projection)
            }
        }),
{
    if dedupe.receipt_id != sealed_receipt.id {
        return Err(
            PostMergeObserverRuntimeError::ReceiptMismatch {
                dedupe_receipt_id: dedupe.receipt_id.clone(),
                receipt_id: sealed_receipt.id.clone(),
            },
        );
    }
    if dedupe.receipt_ref.uri != projection.harness_receipt_ref.uri {
        return Err(
            PostMergeObserverRuntimeError::ReceiptRefMismatch {
                dedupe_receipt_ref: dedupe.receipt_ref.uri.clone(),
                receipt_ref: projection.harness_receipt_ref.uri.clone(),
            },
        );
    }
    if dedupe.decision == PostMergeObserverRuntimeDecision::AlreadyPublished || ledger.contains(
        dedupe.publication_key.as_str(),
    ) {
        return Ok(
            PostMergeObserverPublicationRuntime {
                decision: PostMergeObserverPublicationRuntimeDecision::AlreadyPublished,
                publication_key: dedupe.publication_key.clone(),
                receipt_ref: projection.harness_receipt_ref.copy(),
                commands: Vec::new(),
            },
        );
    }
    let commands = match publication_commands(dedupe.publication_key.as_str(), projection) {
        Ok(c) => c,
        Err(e) => {
            return Err(e);
        },
    };
    Ok(
        PostMergeObserverPublicationRuntime {
            decision: PostMergeObserverPublicationRuntimeDecision::Publish,
            publication_key: dedupe.publication_key.clone(),
            receipt_ref: projection.harness_receipt_ref.copy(),
            commands,
        },
    )
}

/// Plans the publication and records a planned publication in the ledger.
pub fn project_post_merge_observer_publication_commands(
    dedupe: &PostMergeObserverRuntimeDedupePlan,
    sealed_receipt: &HarnessReceipt,
    projection: &PostMergeObserverPublicationProjection,
    ledger: &mut PostMergeObserverPublicationLedger,
) -> (r: Result<PostMergeObserverPublicationRuntime, PostMergeObserverRuntimeError>)
    ensures
        plan_refusal(*dedupe, *sealed_receipt, *projection, old(ledger).view()) is Some ==> (r matches Err(e)
            && plan_refused_with(e, *dedupe, *sealed_receipt, *projection, old(ledger).view())
            && final(ledger).view() == old(ledger).view()),
        plan_refusal(*dedupe, *sealed_receipt, *projection, old(ledger).view()) is None ==> (r matches Ok(rt) && {
            &&& rt.publication_key@ == dedupe.publication_key@
            &&& rt.receipt_ref@ == projection.harness_receipt_ref@
            &&& if already_published(*dedupe, old(ledger).view()) {
                rt.decision == PostMergeObserverPublicationRuntimeDecision::AlreadyPublished
                    && rt.commands@.len() == 0 && final(ledger).view() == old(ledger).view()
            } else {
                rt.decision == PostMergeObserverPublicationRuntimeDecision::Publish
                    && commands_view(rt.commands@) == planned_commands(dedupe.publication_key@, *projection)
                    && final(ledger).view() == old(ledger).view().insert(dedupe.publication_key@)
            }
        }),
{
    let runtime = plan_post_merge_observer_publication_commands(dedupe, sealed_receipt, projection, ledger);
    match runtime {
        Ok(rt) => {
            if rt.decision == PostMergeObserverPublicationRuntimeDecision::Publish {
                ledger.mark_published(rt.publication_key.as_str());
            }
            Ok(rt)
        },
        Err(e) => Err(e),
    }
}

/// Publication happens at most once per key: once a plan has been
/// projected and the ledger updated, planning the same publication again
/// succeeds and finds it already published, so it yields no commands.
pub proof fn law_publish_at_most_once(
    dedupe: PostMergeObserverRuntimeDedupePlan,
    receipt: HarnessReceipt,
    projection: PostMergeObserverPublicationProjection,
    ledger: Set<Seq<char>>,
)
    requires
        plan_refusal(dedupe, receipt, projection, ledger) is None,
    ensures
        ({
            let after = if already_published(dedupe, ledger) {
                ledger
            } else {
                ledger.insert(dedupe.publication_key@)
            };
            plan_refusal(dedupe, receipt, projection, after) is None && already_published(dedupe, after)
        }),
{
}

// ---------------------------------------------------------------------
// The publication request and its readback.
// ---------------------------------------------------------------------

/// The request handed to the publication adapter.
/// `req` is the request for publishing under `key`, with `receipt_ref` and
/// `commands`, to the targets `projection` names.
pub open spec fn publication_request_fits(
    req: PostMergeObserverSourcePublicationRequest,
    key: Seq<char>,
    receipt_ref: ReferenceView,
    commands: Seq<CommandView>,
    projection: PostMergeObserverPublicationProjection,
) -> bool {
    &&& req.publication_key@ == key
    &&& req.receipt_ref@ == receipt_ref
    &&& req.source_issue_ref@ == projection.source_issue_ref@
    &&& req.source_thread_ref@ == projection.source_thread_ref.unwrap()@
    &&& req.pull_request_ref@ == projection.pull_request_ref@
    &&& req.reason_code@ == projection.reason_code@
    &&& req.close_source_issue == close_planned(projection)
    &&& commands_view(req.commands@) == commands
}

pub fn source_publication_request(
    publication: &PostMergeObserverPublicationRuntime,
    projection: &PostMergeObserverPublicationProjection,
) -> (r: Result<PostMergeObserverSourcePublicationRequest, PostMergeObserverRuntimeError>)
    ensures
        thread_target_ruling(*projection) is Err ==> r == Err::<PostMergeObserverSourcePublicationRequest, _>(thread_target_ruling(*projection)->Err_0),
        thread_target_ruling(*projection) is Ok ==> (r matches Ok(req) && publication_request_fits(
            req,
            publication.publication_key@,
            publication.receipt_ref@,
            commands_view(publication.commands@),
            *projection,
        )),
{
    let thread = match &projection.source_thread_ref {
        Some(t) => t,
        None => {
            return Err(PostMergeObserverRuntimeError::MissingSourceThreadTarget);
        },
    };
    match require_source_thread_metadata(thread) {
        Ok(()) => {},
        Err(e) => {
            return Err(e);
        },
    }
    let commands = copy_commands(&publication.commands);
    Ok(
        PostMergeObserverSourcePublicationRequest {
            publication_key: publication.publication_key.clone(),
            receipt_ref: publication.receipt_ref.copy(),
            source_issue_ref: projection.source_issue_ref.copy(),
            source_thread_ref: thread.copy(),
            pull_request_ref: projection.pull_request_ref.copy(),
            reason_code: projection.reason_code.clone(),
            close_source_issue: projection.close_authorized && projection.source_issue_disposition
                == PostMergeSourceIssueDisposition::Close,
            commands,
        },
    )
}

pub fn copy_command(c: &PostMergeObserverPublicationCommand) -> (r: PostMergeObserverPublicationCommand)
    ensures
        r@ == c@,
{
    match c {
        PostMergeObserverPublicationCommand::SourceIssueComment { publication_key, target, receipt_ref, body } =>
            PostMergeObserverPublicationCommand::SourceIssueComment {
                publication_key: publication_key.clone(),
                target: target.copy(),
                receipt_ref: receipt_ref.copy(),
                body: body.clone(),
            },
        PostMergeObserverPublicationCommand::SourceThreadReply { publication_key, target, receipt_ref, body } =>
            PostMergeObserverPublicationCommand::SourceThreadReply {
                publication_key: publication_key.clone(),
                target: target.copy(),
                receipt_ref: receipt_ref.copy(),
                body: body.clone(),
            },
        PostMergeObserverPublicationCommand::SourceIssueClose { publication_key, target, receipt_ref, reason_code } =>
            PostMergeObserverPublicationCommand::SourceIssueClose {
                publication_key: publication_key.clone(),
                target: target.copy(),
                receipt_ref: receipt_ref.copy(),
                reason_code: reason_code.clone(),
            },
    }
}

pub fn copy_commands(cs: &Vec<PostMergeObserverPublicationCommand>) -> (r: Vec<PostMergeObserverPublicationCommand>)
    ensures
        commands_view(r@) == commands_view(cs@),
{
    let mut out: Vec<PostMergeObserverPublicationCommand> = Vec::new();
    let mut i: usize = 0;
    while i < cs.len()
        invariant
            i <= cs@.len(),
            out@.len() == i,
            forall|j: int| 0 <= j < i ==> #[trigger] out@[j]@ == cs@[j]@,
        decreases cs@.len() - i,
    {
        out.push(copy_command(&cs[i]));
        i += 1;
    }
    assert(commands_view(out@) =~= commands_view(cs@));
    out
}

pub open spec fn has_kind(cmds: Seq<PostMergeObserverPublicationCommand>, kind: nat) -> bool {
    exists|i: int| 0 <= i < cmds.len() && (#[trigger] cmds[i])@.kind == kind
}

fn has_kind_exec(cmds: &Vec<PostMergeObserverPublicationCommand>, kind: u8) -> (r: bool)
    ensures
        r == has_kind(cmds@, kind as nat),
{
    let mut i: usize = 0;
    while i < cmds.len()
        invariant
            i <= cmds@.len(),
            forall|j: int| 0 <= j < i ==> (#[trigger] cmds@[j])@.kind != kind as nat,
        decreases cmds@.len() - i,
    {
        let k: u8 = match &cmds[i] {
            PostMergeObserverPublicationCommand::SourceIssueComment { .. } => 0,
            PostMergeObserverPublicationCommand::SourceThreadReply { .. } => 1,
            PostMergeObserverPublicationCommand::SourceIssueClose { .. } => 2,
        };
        if k == kind {
            return true;
        }
        i += 1;
    }
    false
}

/// The request asks for a comment on the source issue.
pub fn source_issue_comment_required(request: &PostMergeObserverSourcePublicationRequest) -> (r: bool)
    ensures
        r == has_kind(request.commands@, 0),
{
    has_kind_exec(&request.commands, 0)
}

/// The request asks for a reply in the source thread.
pub fn source_thread_reply_required(request: &PostMergeObserverSourcePublicationRequest) -> (r: bool)
    ensures
        r == has_kind(request.commands@, 1),
{
    has_kind_exec(&request.commands, 1)
}

/// The request asks to close the source issue.
pub fn source_issue_close_required(request: &PostMergeObserverSourcePublicationRequest) -> (r: bool)
    ensures
        r == has_kind(request.commands@, 2),
{
    has_kind_exec(&request.commands, 2)
}

pub open spec fn provider_listed(refs: Seq<Reference>, provider: Seq<char>) -> bool {
    exists|i: int| 0 <= i < refs.len() && (#[trigger] refs[i])@.provider == Some(provider)
}

pub open spec fn typed_provider_listed(refs: Seq<Reference>, t: ReferenceType, provider: Seq<char>) -> bool {
    exists|i: int| 0 <= i < refs.len() && (#[trigger] refs[i])@.provider == Some(provider) && refs[i].reference_type == t
}

/// Some reference comes from `provider`.
pub fn has_provider_ref(references: &Vec<Reference>, provider: &str) -> (r: bool)
    ensures
        r == provider_listed(references@, provider@),
{
    let mut i: usize = 0;
    while i < references.len()
        invariant
            i <= references@.len(),
            forall|j: int| 0 <= j < i ==> (#[trigger] references@[j])@.provider != Some(provider@),
        decreases references@.len() - i,
    {
        let hit = match &references[i].provider {
            Some(p) => str_eq(p.as_str(), provider),
            None => false,
        };
        if hit {
            return true;
        }
        i += 1;
    }
    false
}

/// Some reference has type `reference_type` and comes from `provider`.
pub fn has_typed_provider_ref(
    references: &Vec<Reference>,
    reference_type: ReferenceType,
    provider: &str,
) -> (r: bool)
    ensures
        r == typed_provider_listed(references@, reference_type, provider@),
{
    let mut i: usize = 0;
    while i < references.len()
        invariant
            i <= references@.len(),
            forall|j: int| 0 <= j < i ==> !((#[trigger] references@[j])@.provider == Some(provider@) && references@[j].reference_type == reference_type),
        decreases references@.len() - i,
    {
        let hit = match &references[i].provider {
            Some(p) => str_eq(p.as_str(), provider) && references[i].reference_type == reference_type,
            None => false,
        };
        if hit {
            return true;
        }
        i += 1;
    }
    false
}

/// Requires the observed reference to have the expected identity.
pub fn require_matching_reference_identity(
    observed: &Reference,
    expected: &Reference,
    message: &'static str,
) -> (r: Result<(), PostMergeObserverRuntimeError>)
    ensures
        same_ref_identity(observed@, expected@) <==> r is Ok,
        r matches Err(e) ==> e matches PostMergeObserverRuntimeError::SourcePublicationMismatch(m) && m@ == message@,
{
    if !same_reference_identity(observed, expected) {
        return Err(PostMergeObserverRuntimeError::SourcePublicationMismatch(message.to_owned()));
    }
    Ok(())
}

/// Requires the observed reference to name the expected object.
pub fn require_matching_reference(
    observed: &Reference,
    expected: &Reference,
    message: &'static str,
) -> (r: Result<(), PostMergeObserverRuntimeError>)
    ensures
        same_ref(observed@, expected@) <==> r is Ok,
        r matches Err(e) ==> e matches PostMergeObserverRuntimeError::SourcePublicationMismatch(m) && m@ == message@,
{
    if !same_reference(observed, expected) {
        return Err(PostMergeObserverRuntimeError::SourcePublicationMismatch(message.to_owned()));
    }
    Ok(())
}

/// A readback reference carries provider and locator metadata.
pub fn require_readback_reference_metadata(
    reference: &Reference,
    label: &'static str,
) -> (r: Result<(), PostMergeObserverRuntimeError>)
    ensures
        (blank_opt(reference@.provider) || blank_opt(reference@.locator)) <==> r is Err,
        r matches Err(e) ==> e matches PostMergeObserverRuntimeError::SourcePublicationMismatch(m)
            && m@ == label@ + " requires provider and locator metadata"@,
{
    if blank_opt_exec(&reference.provider) || blank_opt_exec(&reference.locator) {
        let mut m = label.to_owned();
        m.append(" requires provider and locator metadata");
        return Err(PostMergeObserverRuntimeError::SourcePublicationMismatch(m));
    }
    Ok(())
}

/// The readback names the same issue, thread and pull request (with
/// provider locators) and the same receipt as the request.
pub open spec fn identity_ok(
    req: PostMergeObserverSourcePublicationRequest,
    obs: PostMergeObserverSourcePublicationObservation,
) -> bool {
    &&& same_ref_identity(obs.source_issue_ref@, req.source_issue_ref@)
    &&& same_ref_identity(obs.source_thread_ref@, req.source_thread_ref@)
    &&& same_ref_identity(obs.pull_request_ref@, req.pull_request_ref@)
    &&& same_ref(obs.receipt_ref@, req.receipt_ref@)
}

pub open spec fn readback_metadata_ok(r: Reference) -> bool {
    !blank_opt(r@.provider) && !blank_opt(r@.locator)
}

/// Every readback reference has metadata and there is a proof for every
/// command.
pub open spec fn proofs_ok(
    req: PostMergeObserverSourcePublicationRequest,
    obs: PostMergeObserverSourcePublicationObservation,
) -> bool {
    &&& forall|i: int| 0 <= i < obs.published_refs@.len() ==> readback_metadata_ok(#[trigger] obs.published_refs@[i])
    &&& (match obs.closed_ref {
        Some(c) => readback_metadata_ok(c),
        None => true,
    })
    &&& obs.published_refs@.len() + (if obs.closed_ref is Some { 1int } else { 0int }) >= req.commands@.len()
}

pub open spec fn required_commands_ok(
    req: PostMergeObserverSourcePublicationRequest,
    obs: PostMergeObserverSourcePublicationObservation,
) -> bool {
    &&& has_kind(req.commands@, 0) ==> provider_listed(obs.published_refs@, "github"@)
    &&& has_kind(req.commands@, 1) ==> typed_provider_listed(obs.published_refs@, ReferenceType::SlackThread, "slack"@)
}

pub open spec fn close_readback_ok(
    req: PostMergeObserverSourcePublicationRequest,
    obs: PostMergeObserverSourcePublicationObservation,
) -> bool {
    if has_kind(req.commands@, 2) {
        obs.closed_ref matches Some(c) && same_ref_identity(c@, req.source_issue_ref@)
    } else {
        obs.closed_ref is None
    }
}

/// The readback of a publication is accepted exactly when it matches the
/// request: identity, proofs, required commands and the close.
pub open spec fn readback_ok(
    req: PostMergeObserverSourcePublicationRequest,
    obs: PostMergeObserverSourcePublicationObservation,
) -> bool {
    identity_ok(req, obs) && proofs_ok(req, obs) && required_commands_ok(req, obs)
        && close_readback_ok(req, obs)
}

pub fn validate_source_publication_identity(
    request: &PostMergeObserverSourcePublicationRequest,
    observation: &PostMergeObserverSourcePublicationObservation,
) -> (r: Result<(), PostMergeObserverRuntimeError>)
    ensures
        r is Ok <==> identity_ok(*request, *observation),
        r matches Err(e) ==> e is SourcePublicationMismatch,
{
    match require_matching_reference_identity(
        &observation.source_issue_ref,
        &request.source_issue_ref,
        "source issue readback does not match publication request",
    ) {
        Ok(()) => {},
        Err(e) => return Err(e),
    }
    match require_matching_reference_identity(
        &observation.source_thread_ref,
        &request.source_thread_ref,
        "source thread readback does not match publication request",
    ) {
        Ok(()) => {},
        Err(e) => return Err(e),
    }
    match require_matching_reference_identity(
        &observation.pull_request_ref,
        &request.pull_request_ref,
        "target pull request readback does not match publication request",
    ) {
        Ok(()) => {},
        Err(e) => return Err(e),
    }
    require_matching_reference(
        &observation.receipt_ref,
        &request.receipt_ref,
        "receipt readback does not match publication request",
    )
}

pub fn validate_source_publication_proofs(
    request: &PostMergeObserverSourcePublicationRequest,
    observation: &PostMergeObserverSourcePublicationObservation,
) -> (r: Result<(), PostMergeObserverRuntimeError>)
    ensures
        r is Ok <==> proofs_ok(*request, *observation),
        r matches Err(e) ==> e is SourcePublicationMismatch,
{
    let mut i: usize = 0;
    while i < observation.published_refs.len()
        invariant
            i <= observation.published_refs@.len(),
            forall|j: int| 0 <= j < i ==> readback_metadata_ok(#[trigger] observation.published_refs@[j]),
        decreases observation.published_refs@.len() - i,
    {
        match require_readback_reference_metadata(&observation.published_refs[i], "published ref") {
            Ok(()) => {},
            Err(e) => return Err(e),
        }
        i += 1;
    }
    match &observation.closed_ref {
        Some(c) => match require_readback_reference_metadata(c, "source issue close readback") {
            Ok(()) => {},
            Err(e) => return Err(e),
        },
        None => {},
    }
    let closed: usize = if observation.closed_ref.is_some() { 1 } else { 0 };
    if observation.published_refs.len() < request.commands.len()
        && request.commands.len() - observation.published_refs.len() > closed {
        return Err(
            PostMergeObserverRuntimeError::SourcePublicationMismatch(
                "publication readback did not return a proof ref for every source command".to_owned(),
            ),
        );
    }
    Ok(())
}

pub fn validate_source_publication_required_commands(
    request: &PostMergeObserverSourcePublicationRequest,
    observation: &PostMergeObserverSourcePublicationObservation,
) -> (r: Result<(), PostMergeObserverRuntimeError>)
    ensures
        r is Ok <==> required_commands_ok(*request, *observation),
        r matches Err(e) ==> e is SourcePublicationMismatch,
{
    if source_issue_comment_required(request) && !has_provider_ref(&observation.published_refs, "github") {
        return Err(
            PostMergeObserverRuntimeError::SourcePublicationMismatch(
                "source issue comment readback is required".to_owned(),
            ),
        );
    }
    if source_thread_reply_required(request) && !has_typed_provider_ref(
        &observation.published_refs,
        ReferenceType::SlackThread,
        "slack",
    ) {
        return Err(
            PostMergeObserverRuntimeError::SourcePublicationMismatch(
                "source thread reply readback is required".to_owned(),
            ),
        );
    }
    Ok(())
}

pub fn validate_source_publication_close_readback(
    request: &PostMergeObserverSourcePublicationRequest,
    observation: &PostMergeObserverSourcePublicationObservation,
) -> (r: Result<(), PostMergeObserverRuntimeError>)
    ensures
        r is Ok <==> close_readback_ok(*request, *observation),
        r matches Err(e) ==> e is SourcePublicationMismatch,
{
    let close_required = source_issue_close_required(request);
    match &observation.closed_ref {
        Some(reference) => {
            if close_required {
                if same_reference_identity(reference, &request.source_issue_ref) {
                    Ok(())
                } else {
                    Err(
                        PostMergeObserverRuntimeError::SourcePublicationMismatch(
                            "source issue close readback does not match publication request".to_owned(),
                        ),
                    )
                }
            } else {
                Err(
                    PostMergeObserverRuntimeError::SourcePublicationMismatch(
                        "source issue close readback was returned when close was not planned".to_owned(),
                    ),
                )
            }
        },
        None => {
            if close_required {
                Err(
                    PostMergeObserverRuntimeError::SourcePublicationMismatch(
                        "source issue close readback is required".to_owned(),
                    ),
                )
            } else {
                Ok(())
            }
        },
    }
}

/// Accepts a publication readback exactly when it matches the request.
pub fn validate_source_publication_observation(
    request: &PostMergeObserverSourcePublicationRequest,
    observation: &PostMergeObserverSourcePublicationObservation,
) -> (r: Result<(), PostMergeObserverRuntimeError>)
    ensures
        r is Ok <==> readback_ok(*request, *observation),
        r matches Err(e) ==> e is SourcePublicationMismatch,
{
    match validate_source_publication_identity(request, observation) {
        Ok(()) => {},
        Err(e) => return Err(e),
    }
    match validate_source_publication_proofs(request, observation) {
        Ok(()) => {},
        Err(e) => return Err(e),
    }
    match validate_source_publication_required_commands(request, observation) {
        Ok(()) => {},
        Err(e) => return Err(e),
    }
    validate_source_publication_close_readback(request, observation)
}

/// The proofs of a publication: what was published, the close readback if
/// any, and the receipt.
pub fn source_publication_proof_refs(
    request: &PostMergeObserverSourcePublicationRequest,
    observation: &PostMergeObserverSourcePublicationObservation,
) -> (r: Vec<Reference>)
    ensures
        r@.map_values(|x: Reference| x@) == observation.published_refs@.map_values(|x: Reference| x@)
            + (match observation.closed_ref {
                Some(c) => seq![c@],
                None => Seq::empty(),
            }) + seq![request.receipt_ref@],
{
    let mut proof_refs = copy_refs(observation.published_refs.as_slice());
    let ghost base = proof_refs@;
    match &observation.closed_ref {
        Some(c) => proof_refs.push(c.copy()),
        None => {},
    }
    proof_refs.push(request.receipt_ref.copy());
    assert(proof_refs@.map_values(|x: Reference| x@) =~= observation.published_refs@.map_values(|x: Reference| x@)
            + (match observation.closed_ref {
                Some(c) => seq![c@],
                None => Seq::empty(),
            }) + seq![request.receipt_ref@]);
    proof_refs
}


// ---------------------------------------------------------------------
// Publishing through an adapter.
// ---------------------------------------------------------------------

/// What publishes a sealed closure to the source issue and thread, and
/// reads back what it published. Deployments implement it.
pub trait PostMergeObserverPublicationAdapter: Sized {
    /// Whether publishing `request` may take the adapter from `self` to
    /// `after` with `result` as its answer. An adapter that says nothing
    /// more leaves every step possible.
    open spec fn publishes(
        &self,
        after: Self,
        request: PostMergeObserverSourcePublicationRequest,
        result: Result<PostMergeObserverSourcePublicationObservation, PostMergeObserverAdapterError>,
    ) -> bool {
        true
    }

    fn publish_source_update(
        &mut self,
        request: &PostMergeObserverSourcePublicationRequest,
    ) -> (r: Result<PostMergeObserverSourcePublicationObservation, PostMergeObserverAdapterError>)
        ensures
            old(self).publishes(*final(self), *request, r),
    ;
}

/// The outcome of a publication: the plan, the ruling and, where the
/// closure was published, its readback.
#[derive(Clone, Debug, PartialEq)]
pub struct PostMergeObserverLivePublishedPublication {
    pub dedupe: PostMergeObserverRuntimeDedupePlan,
    pub publication: PostMergeObserverPublicationRuntime,
    pub source_publication: Option<PostMergeObserverSourcePublicationReadback>,
}

/// Two dedupe plans say the same.
pub open spec fn same_dedupe(a: PostMergeObserverRuntimeDedupePlan, b: PostMergeObserverRuntimeDedupePlan) -> bool {
    &&& a.decision == b.decision
    &&& a.signal_source == b.signal_source
    &&& a.lock_key@ == b.lock_key@
    &&& a.receipt_id@ == b.receipt_id@
    &&& a.receipt_ref@ == b.receipt_ref@
    &&& a.publication_key@ == b.publication_key@
    &&& a.content_hash@ == b.content_hash@
}

fn copy_dedupe(d: &PostMergeObserverRuntimeDedupePlan) -> (r: PostMergeObserverRuntimeDedupePlan)
    ensures
        same_dedupe(r, *d),
{
    PostMergeObserverRuntimeDedupePlan {
        decision: d.decision,
        signal_source: d.signal_source,
        lock_key: d.lock_key.clone(),
        receipt_id: d.receipt_id.clone(),
        receipt_ref: d.receipt_ref.copy(),
        publication_key: d.publication_key.clone(),
        content_hash: d.content_hash.clone(),
    }
}

/// Records what the publication adapter answered: an adapter error is
/// passed on; a readback that does not match the request is refused; a
/// matching one marks the key published and yields the readback with its
/// proof references. The ledger changes only in the last case.
pub fn record_source_publication(
    request: PostMergeObserverSourcePublicationRequest,
    answer: Result<PostMergeObserverSourcePublicationObservation, PostMergeObserverAdapterError>,
    ledger: &mut PostMergeObserverPublicationLedger,
) -> (r: Result<PostMergeObserverSourcePublicationReadback, PostMergeObserverRuntimeError>)
    ensures
        match answer {
            Err(e) => r == Err::<PostMergeObserverSourcePublicationReadback, _>(PostMergeObserverRuntimeError::Adapter(e))
                && final(ledger).view() == old(ledger).view(),
            Ok(obs) => if readback_ok(request, obs) {
                r matches Ok(rb) && rb.request == request && rb.observation == obs
                    && rb.proof_refs@.map_values(|x: Reference| x@) == obs.published_refs@.map_values(
                    |x: Reference| x@,
                ) + (match obs.closed_ref {
                    Some(c) => seq![c@],
                    None => Seq::empty(),
                }) + seq![request.receipt_ref@]
                    && final(ledger).view() == old(ledger).view().insert(request.publication_key@)
            } else {
                r matches Err(e) && e is SourcePublicationMismatch && final(ledger).view() == old(ledger).view()
            },
        },
{
    let observation = match answer {
        Err(e) => return Err(PostMergeObserverRuntimeError::Adapter(e)),
        Ok(o) => o,
    };
    match validate_source_publication_observation(&request, &observation) {
        Ok(()) => {},
        Err(e) => return Err(e),
    }
    ledger.mark_published(request.publication_key.as_str());
    let proof_refs = source_publication_proof_refs(&request, &observation);
    Ok(PostMergeObserverSourcePublicationReadback { request, observation, proof_refs })
}

/// What a due publication ends in once the adapter answered `answer` to
/// `request`: the adapter's error; a refusal of a readback that does not
/// match the request; or the published outcome with its readback and
/// proof references, the key then entering the ledger.
pub open spec fn published_as(
    r: Result<PostMergeObserverLivePublishedPublication, PostMergeObserverRuntimeError>,
    dedupe: PostMergeObserverRuntimeDedupePlan,
    projection: PostMergeObserverPublicationProjection,
    request: PostMergeObserverSourcePublicationRequest,
    answer: Result<PostMergeObserverSourcePublicationObservation, PostMergeObserverAdapterError>,
    before: Set<Seq<char>>,
    after: Set<Seq<char>>,
) -> bool {
    match answer {
        Err(e) => r == Err::<PostMergeObserverLivePublishedPublication, _>(PostMergeObserverRuntimeError::Adapter(e))
            && after == before,
        Ok(obs) => if readback_ok(request, obs) {
            &&& r matches Ok(out)
            &&& same_dedupe(out.dedupe, dedupe)
            &&& out.publication.decision == PostMergeObserverPublicationRuntimeDecision::Publish
            &&& out.publication.publication_key@ == dedupe.publication_key@
            &&& out.publication.receipt_ref@ == projection.harness_receipt_ref@
            &&& commands_view(out.publication.commands@) == planned_commands(dedupe.publication_key@, projection)
            &&& out.source_publication matches Some(rb)
            &&& rb.request == request
            &&& rb.observation == obs
            &&& rb.proof_refs@.map_values(|x: Reference| x@) == obs.published_refs@.map_values(|x: Reference| x@)
                + (match obs.closed_ref {
                    Some(c) => seq![c@],
                    None => Seq::empty(),
                }) + seq![request.receipt_ref@]
            &&& after == before.insert(dedupe.publication_key@)
        } else {
            r matches Err(e) && e is SourcePublicationMismatch && after == before
        },
    }
}

/// From the receipt's dedupe plan and publication projection on: plans
/// the publication; where it is due, builds the request, has the adapter
/// publish it, once, and records the readback. A refused or already
/// published plan leaves the adapter untouched. Whatever the adapter
/// answers, the key enters the ledger only with a readback that matches
/// the request, and nothing is published twice.
pub fn execute_post_merge_observer_with_publication_adapter<P: PostMergeObserverPublicationAdapter>(
    dedupe: &PostMergeObserverRuntimeDedupePlan,
    sealed_receipt: &HarnessReceipt,
    projection: &PostMergeObserverPublicationProjection,
    publisher: &mut P,
    ledger: &mut PostMergeObserverPublicationLedger,
) -> (r: Result<PostMergeObserverLivePublishedPublication, PostMergeObserverRuntimeError>)
    ensures
        plan_refusal(*dedupe, *sealed_receipt, *projection, old(ledger).view()) is Some ==> (r matches Err(e)
            && plan_refused_with(e, *dedupe, *sealed_receipt, *projection, old(ledger).view())
            && final(ledger).view() == old(ledger).view() && *final(publisher) == *old(publisher)),
        plan_refusal(*dedupe, *sealed_receipt, *projection, old(ledger).view()) is None && already_published(
            *dedupe,
            old(ledger).view(),
        ) ==> (r matches Ok(out) && same_dedupe(out.dedupe, *dedupe) && out.publication.decision
            == PostMergeObserverPublicationRuntimeDecision::AlreadyPublished && out.publication.commands@.len() == 0
            && out.source_publication is None && final(ledger).view() == old(ledger).view()
            && *final(publisher) == *old(publisher)),
        plan_refusal(*dedupe, *sealed_receipt, *projection, old(ledger).view()) is None && !already_published(
            *dedupe,
            old(ledger).view(),
        ) ==> exists|request: PostMergeObserverSourcePublicationRequest,
            answer: Result<PostMergeObserverSourcePublicationObservation, PostMergeObserverAdapterError>|
            #![trigger published_as(r, *dedupe, *projection, request, answer, old(ledger).view(), final(ledger).view())]
            publication_request_fits(
                request,
                dedupe.publication_key@,
                projection.harness_receipt_ref@,
                planned_commands(dedupe.publication_key@, *projection),
                *projection,
            ) && old(publisher).publishes(*final(publisher), request, answer)
            && published_as(r, *dedupe, *projection, request, answer, old(ledger).view(), final(ledger).view()),
{
    let publication = plan_post_merge_observer_publication_commands(dedupe, sealed_receipt, projection, ledger)?;
    if publication.decision != PostMergeObserverPublicationRuntimeDecision::Publish {
        return Ok(
            PostMergeObserverLivePublishedPublication {
                dedupe: copy_dedupe(dedupe),
                publication,
                source_publication: None,
            },
        );
    }
    let request = match source_publication_request(&publication, projection) {
        Ok(q) => q,
        Err(e) => {
            return Err(e);
        },
    };
    let ghost req = request;
    let answer = publisher.publish_source_update(&request);
    let ghost ans = answer;
    let ghost before = ledger.view();
    let readback = match record_source_publication(request, answer, ledger) {
        Ok(rb) => rb,
        Err(e) => {
            assert(published_as(Err(e), *dedupe, *projection, req, ans, before, ledger.view()));
            return Err(e);
        },
    };
    let out = PostMergeObserverLivePublishedPublication {
        dedupe: copy_dedupe(dedupe),
        publication,
        source_publication: Some(readback),
    };
    assert(published_as(Ok(out), *dedupe, *projection, req, ans, before, ledger.view()));
    Ok(out)
}


/// The next step the public reply names: none once the close is planned;
/// otherwise a failed verification is to be reviewed, a pending one waited
/// for, and any other closure reviewed at the source issue. A failed and
/// a pending verification never name the same next step.
pub proof fn law_next_action_follows_the_closure(
    p: PostMergeObserverPublicationProjection,
    q: PostMergeObserverPublicationProjection,
)
    ensures
        (p.close_authorized && p.source_issue_disposition == PostMergeSourceIssueDisposition::Close)
            ==> next_action(p) == "none"@,
        !(p.close_authorized && p.source_issue_disposition == PostMergeSourceIssueDisposition::Close)
            && p.reason_code@ == "failed_verification"@ ==> next_action(p) == "review_failed_verification"@,
        !(p.close_authorized && p.source_issue_disposition == PostMergeSourceIssueDisposition::Close)
            && p.reason_code@ == "merged_pending_verification"@ ==> next_action(p) == "wait_for_verification"@,
        !(p.close_authorized && p.source_issue_disposition == PostMergeSourceIssueDisposition::Close)
            && p.reason_code@ != "failed_verification"@ && p.reason_code@ != "merged_pending_verification"@
            ==> next_action(p) == "review_source_issue"@,
        !(p.close_authorized && p.source_issue_disposition == PostMergeSourceIssueDisposition::Close)
            && !(q.close_authorized && q.source_issue_disposition == PostMergeSourceIssueDisposition::Close)
            && p.reason_code@ == "failed_verification"@ && q.reason_code@ == "merged_pending_verification"@
            ==> next_action(p) != next_action(q),
        crate::text::contains(reply_text(p), ". Next: "@ + next_action(p) + ". Receipt: "@),
{
    reveal_strlit("review_failed_verification");
    reveal_strlit("wait_for_verification");
    reveal_strlit("failed_verification");
    reveal_strlit("merged_pending_verification");
    assert("failed_verification"@ != "merged_pending_verification"@) by {
        assert("failed_verification"@[0] != "merged_pending_verification"@[0]);
    }
    assert("review_failed_verification"@ != "wait_for_verification"@) by {
        assert("review_failed_verification"@[0] != "wait_for_verification"@[0]);
    }
    let head = "Post-merge observer: "@ + p.summary@ + ". Source issue: "@ + p.source_issue_ref.uri@
        + ". Target PR: "@ + p.pull_request_ref.uri@ + ". Merge: "@ + or_text(p.merge_sha, "not_available"@)
        + ". Review gate: external_human. Closure: "@ + p.reason_code@ + ". Verification: "@
        + or_text(p.verification_criterion_id, "not_required"@) + ". Verification summary: "@
        + or_text(p.verification_summary, "not_required"@) + ". Proof: "@ + p.proof_criterion_id@;
    let needle = ". Next: "@ + next_action(p) + ". Receipt: "@;
    let tail = p.harness_receipt_ref.uri@ + "."@;
    assert(reply_text(p) =~= head + needle + tail);
    assert((head + needle + tail).subrange(head.len() as int, (head.len() + needle.len()) as int) =~= needle);
    assert(crate::text::occurs_at(reply_text(p), needle, head.len() as int));
}

} // verus!
