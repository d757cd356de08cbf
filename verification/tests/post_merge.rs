use runx::post_merge::{
    PostMergeObserverAdapterError, PostMergeObserverPublicationAdapter,
    PostMergeObserverPublicationCommand, PostMergeObserverPublicationLedger,
    PostMergeObserverPublicationProjection, PostMergeObserverPublicationRuntimeDecision,
    PostMergeObserverRuntimeError, PostMergeObserverSignalSource,
    PostMergeObserverSourcePublicationObservation, PostMergeObserverSourcePublicationRequest,
    PostMergeSourceIssueDisposition, execute_post_merge_observer_with_publication_adapter,
    next_human_action, plan_post_merge_observer_publication_commands,
    project_post_merge_observer_publication_commands, public_reply_body, sanitize_public_text,
    require_observed_closure_reason, sanitize_token, sealed_receipt_dedupe_plan,
};
use runx::receipt::{Harness, HarnessIdempotency, HarnessReceipt, HarnessSeal};
use runx::reference::{Reference, ReferenceType};

fn reference(t: ReferenceType, uri: &str, provider: Option<&str>, locator: Option<&str>) -> Reference {
    Reference {
        reference_type: t,
        uri: uri.to_owned(),
        provider: provider.map(str::to_owned),
        locator: locator.map(str::to_owned),
        label: None,
        observed_at: None,
        proof_kind: None,
    }
}

fn receipt() -> HarnessReceipt {
    HarnessReceipt {
        id: "hr_1".to_owned(),
        seal: HarnessSeal {
            reason_code: "verified_fix".to_owned(),
            digest: "sha256:seal".to_owned(),
            closed_at: "2026-01-01T00:00:00Z".to_owned(),
        },
        harness: Harness {
            idempotency: HarnessIdempotency {
                intent_key: "intent".to_owned(),
                content_hash: "hash".to_owned(),
            },
            acts: Vec::new(),
        },
    }
}

fn issue() -> Reference {
    reference(ReferenceType::GithubIssue, "https://github.com/acme/app/issues/7", Some("github"), Some("acme/app#7"))
}

fn thread() -> Reference {
    reference(ReferenceType::SlackThread, "slack://C1/1.2", Some("slack"), Some("C1:1.2"))
}

fn projection(close: bool) -> PostMergeObserverPublicationProjection {
    PostMergeObserverPublicationProjection {
        harness_receipt_ref: reference(ReferenceType::HarnessReceipt, "runx:harness_receipt:hr_1", None, None),
        source_issue_ref: issue(),
        source_thread_ref: Some(thread()),
        pull_request_ref: reference(
            ReferenceType::GithubPullRequest,
            "https://github.com/acme/app/pull/9",
            Some("github"),
            Some("acme/app#9"),
        ),
        reason_code: "verified_fix".to_owned(),
        close_authorized: close,
        source_issue_disposition: PostMergeSourceIssueDisposition::Close,
        summary: "fixed in /home/dev/app".to_owned(),
        merge_sha: Some("abc123".to_owned()),
        verification_criterion_id: None,
        verification_summary: None,
        proof_criterion_id: "proof_1".to_owned(),
    }
}

fn matching_observation(request: &PostMergeObserverSourcePublicationRequest) -> PostMergeObserverSourcePublicationObservation {
    PostMergeObserverSourcePublicationObservation {
        source_issue_ref: request.source_issue_ref.clone(),
        source_thread_ref: request.source_thread_ref.clone(),
        pull_request_ref: request.pull_request_ref.clone(),
        receipt_ref: request.receipt_ref.clone(),
        published_refs: vec![
            reference(ReferenceType::GithubIssue, "https://github.com/acme/app/issues/7#c1", Some("github"), Some("c1")),
            reference(ReferenceType::SlackThread, "slack://C1/1.3", Some("slack"), Some("C1:1.3")),
        ],
        closed_ref: if request.close_source_issue { Some(issue()) } else { None },
    }
}

enum Answer {
    Matching,
    Mismatching,
    Failing,
}

struct FakePublisher {
    answer: Answer,
    calls: usize,
}

impl PostMergeObserverPublicationAdapter for FakePublisher {
    fn publish_source_update(
        &mut self,
        request: &PostMergeObserverSourcePublicationRequest,
    ) -> Result<PostMergeObserverSourcePublicationObservation, PostMergeObserverAdapterError> {
        self.calls += 1;
        match self.answer {
            Answer::Matching => Ok(matching_observation(request)),
            Answer::Mismatching => {
                let mut observation = matching_observation(request);
                observation.published_refs.clear();
                Ok(observation)
            }
            Answer::Failing => Err(PostMergeObserverAdapterError::new("publish", "offline".to_owned())),
        }
    }
}

#[test]
fn ledger_remembers_published_keys() {
    let mut ledger = PostMergeObserverPublicationLedger::new();
    assert!(!ledger.contains("k"));
    ledger.mark_published("k");
    ledger.mark_published("k");
    assert!(ledger.contains("k"));
}

#[test]
fn tokens_naming_paths_or_credentials_are_redacted() {
    assert_eq!(sanitize_token("/home/dev/app"), "[redacted]");
    assert_eq!(sanitize_token("(token=abc)."), "[redacted]");
    assert_eq!(sanitize_token("OpenAI_Api_Key=sk"), "[redacted]");
    assert_eq!(sanitize_token("ordinary"), "ordinary");
    assert_eq!(sanitize_public_text("  a \n /Users/x/y  b "), "a [redacted] b");
}

#[test]
fn reply_body_is_public() {
    let body = public_reply_body(&projection(true));
    assert!(body.starts_with("Post-merge observer: fixed in [redacted] Source issue:"));
    assert!(body.contains("Merge: abc123."));
    assert!(body.contains("Verification: not_required."));
    assert!(body.ends_with("Next: none. Receipt: runx:harness_receipt:hr_1."));
    assert_eq!(next_human_action(&projection(false)), "review_source_issue");
}

#[test]
fn dedupe_plan_comes_from_the_sealed_receipt() {
    let dedupe = sealed_receipt_dedupe_plan(&receipt(), PostMergeObserverSignalSource::Webhook);
    assert_eq!(dedupe.lock_key, "post-merge-observer:hash");
    assert_eq!(dedupe.publication_key, "post-merge-publication:intent:hash");
    assert_eq!(dedupe.receipt_ref.uri, "runx:harness_receipt:hr_1");
    assert_eq!(dedupe.receipt_ref.locator.as_deref(), Some("sha256:seal"));
}

#[test]
fn planning_publishes_once() {
    let receipt = receipt();
    let dedupe = sealed_receipt_dedupe_plan(&receipt, PostMergeObserverSignalSource::Schedule);
    let mut ledger = PostMergeObserverPublicationLedger::new();
    let first = project_post_merge_observer_publication_commands(&dedupe, &receipt, &projection(true), &mut ledger).unwrap();
    assert_eq!(first.decision, PostMergeObserverPublicationRuntimeDecision::Publish);
    assert_eq!(first.commands.len(), 3);
    assert!(matches!(first.commands[2], PostMergeObserverPublicationCommand::SourceIssueClose { .. }));
    assert!(ledger.contains("post-merge-publication:intent:hash"));
    let second = project_post_merge_observer_publication_commands(&dedupe, &receipt, &projection(true), &mut ledger).unwrap();
    assert_eq!(second.decision, PostMergeObserverPublicationRuntimeDecision::AlreadyPublished);
    assert!(second.commands.is_empty());
}

#[test]
fn planning_refuses_a_foreign_receipt() {
    let receipt = receipt();
    let dedupe = sealed_receipt_dedupe_plan(&receipt, PostMergeObserverSignalSource::Manual);
    let mut other = receipt.clone();
    other.id = "hr_2".to_owned();
    let ledger = PostMergeObserverPublicationLedger::new();
    assert_eq!(
        plan_post_merge_observer_publication_commands(&dedupe, &other, &projection(false), &ledger),
        Err(PostMergeObserverRuntimeError::ReceiptMismatch {
            dedupe_receipt_id: "hr_1".to_owned(),
            receipt_id: "hr_2".to_owned()
        })
    );
    let mut no_thread = projection(false);
    no_thread.source_thread_ref = None;
    assert_eq!(
        plan_post_merge_observer_publication_commands(&dedupe, &receipt, &no_thread, &ledger),
        Err(PostMergeObserverRuntimeError::MissingSourceThreadTarget)
    );
}

#[test]
fn publication_through_the_adapter_marks_the_ledger_once() {
    let receipt = receipt();
    let dedupe = sealed_receipt_dedupe_plan(&receipt, PostMergeObserverSignalSource::Webhook);
    let mut ledger = PostMergeObserverPublicationLedger::new();
    let mut publisher = FakePublisher { answer: Answer::Matching, calls: 0 };
    let out = execute_post_merge_observer_with_publication_adapter(&dedupe, &receipt, &projection(true), &mut publisher, &mut ledger).unwrap();
    assert_eq!(out.publication.decision, PostMergeObserverPublicationRuntimeDecision::Publish);
    let readback = out.source_publication.unwrap();
    assert_eq!(readback.proof_refs.len(), 4);
    assert_eq!(readback.proof_refs[3].uri, "runx:harness_receipt:hr_1");
    assert!(ledger.contains("post-merge-publication:intent:hash"));
    let again = execute_post_merge_observer_with_publication_adapter(&dedupe, &receipt, &projection(true), &mut publisher, &mut ledger).unwrap();
    assert_eq!(again.publication.decision, PostMergeObserverPublicationRuntimeDecision::AlreadyPublished);
    assert!(again.source_publication.is_none());
    assert_eq!(publisher.calls, 1);
}

#[test]
fn failed_or_mismatched_publication_leaves_the_ledger() {
    let receipt = receipt();
    let dedupe = sealed_receipt_dedupe_plan(&receipt, PostMergeObserverSignalSource::Webhook);
    let mut ledger = PostMergeObserverPublicationLedger::new();
    let mut failing = FakePublisher { answer: Answer::Failing, calls: 0 };
    let error = execute_post_merge_observer_with_publication_adapter(&dedupe, &receipt, &projection(false), &mut failing, &mut ledger).unwrap_err();
    assert!(matches!(error, PostMergeObserverRuntimeError::Adapter(_)));
    assert!(!ledger.contains("post-merge-publication:intent:hash"));
    let mut mismatching = FakePublisher { answer: Answer::Mismatching, calls: 0 };
    let error = execute_post_merge_observer_with_publication_adapter(&dedupe, &receipt, &projection(false), &mut mismatching, &mut ledger).unwrap_err();
    assert!(matches!(error, PostMergeObserverRuntimeError::SourcePublicationMismatch(_)));
    assert!(!ledger.contains("post-merge-publication:intent:hash"));
}

#[test]
fn a_refused_plan_reaches_neither_the_ledger_nor_the_publisher() {
    let receipt = receipt();
    let dedupe = sealed_receipt_dedupe_plan(&receipt, PostMergeObserverSignalSource::Manual);
    let mut other = receipt.clone();
    other.id = "hr_2".to_owned();
    let mut ledger = PostMergeObserverPublicationLedger::new();
    assert_eq!(
        project_post_merge_observer_publication_commands(&dedupe, &other, &projection(true), &mut ledger),
        Err(PostMergeObserverRuntimeError::ReceiptMismatch {
            dedupe_receipt_id: "hr_1".to_owned(),
            receipt_id: "hr_2".to_owned()
        })
    );
    assert!(!ledger.contains("post-merge-publication:intent:hash"));
    let mut publisher = FakePublisher { answer: Answer::Matching, calls: 0 };
    let error = execute_post_merge_observer_with_publication_adapter(&dedupe, &other, &projection(true), &mut publisher, &mut ledger).unwrap_err();
    assert!(matches!(error, PostMergeObserverRuntimeError::ReceiptMismatch { .. }));
    assert_eq!(publisher.calls, 0);
    assert!(!ledger.contains("post-merge-publication:intent:hash"));
}

#[test]
fn the_observed_closure_must_be_the_sealed_one() {
    let receipt = receipt();
    assert_eq!(require_observed_closure_reason("verified_fix".to_owned(), &receipt), Ok(()));
    assert_eq!(
        require_observed_closure_reason("not_fixed".to_owned(), &receipt),
        Err(PostMergeObserverRuntimeError::ObservedClosureMismatch {
            observed_reason_code: "not_fixed".to_owned(),
            receipt_reason_code: "verified_fix".to_owned(),
        })
    );
}
