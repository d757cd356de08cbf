use runx::json::{JsonObject, JsonValue};
use runx::receipt::{ActForm, ClosureDisposition, Receipt, ReceiptAct, ReceiptSeal};
use runx::reference::{Reference, ReferenceType};
use runx::target_runner::{
    TargetRepoRunnerPullRequestDisposition, TargetRepoRunnerRuntimeError,
    project_target_repo_runner_revision_receipt,
    project_target_repo_runner_source_publication_receipt,
};

fn reference(t: ReferenceType, uri: &str) -> Reference {
    Reference {
        reference_type: t,
        uri: uri.to_owned(),
        provider: None,
        locator: None,
        label: None,
        observed_at: None,
        proof_kind: None,
    }
}

fn metadata(disposition: &str) -> JsonObject {
    let mut target_runner = JsonObject::new();
    target_runner.insert("disposition".to_owned(), JsonValue::String(disposition.to_owned()));
    let mut metadata = JsonObject::new();
    metadata.insert("target_runner".to_owned(), JsonValue::Object(target_runner));
    metadata
}

fn receipt(form: ActForm, refs: Vec<Reference>, meta: Option<JsonObject>) -> Receipt {
    Receipt {
        id: "rx_1".to_owned(),
        seal: ReceiptSeal {
            disposition: ClosureDisposition::Sealed,
            summary: "done".to_owned(),
        },
        acts: vec![ReceiptAct {
            id: "act_1".to_owned(),
            form,
            artifact_refs: refs,
        }],
        metadata: meta,
    }
}

fn projection_error(result: Result<impl std::fmt::Debug, TargetRepoRunnerRuntimeError>) -> String {
    match result {
        Err(TargetRepoRunnerRuntimeError::ReceiptProjection(message)) => message,
        other => panic!("{other:?}"),
    }
}

#[test]
fn revision_receipts_project_their_refs() {
    let refs = vec![
        reference(ReferenceType::Artifact, "runx:artifact:log"),
        reference(ReferenceType::GithubPullRequest, "https://github.com/a/b/pull/1"),
        reference(ReferenceType::GithubRepo, "https://github.com/a/b"),
    ];
    let projection = project_target_repo_runner_revision_receipt(&receipt(ActForm::Revision, refs, Some(metadata("created")))).unwrap();
    assert_eq!(projection.receipt_ref.uri, "runx:receipt:rx_1");
    assert_eq!(projection.act_id, "act_1");
    assert_eq!(projection.disposition, TargetRepoRunnerPullRequestDisposition::Create);
    assert_eq!(projection.source_thread_ref.uri, "runx:artifact:log");
    assert!(projection.source_issue_ref.is_none());
    assert_eq!(projection.summary, "done");
}

#[test]
fn revision_receipts_need_every_part() {
    let refs = vec![reference(ReferenceType::GithubPullRequest, "https://github.com/a/b/pull/1")];
    assert_eq!(
        projection_error(project_target_repo_runner_revision_receipt(&receipt(ActForm::Revision, refs.clone(), Some(metadata("created"))))),
        "target repo ref is required"
    );
    assert_eq!(
        projection_error(project_target_repo_runner_revision_receipt(&receipt(ActForm::Reply, refs.clone(), Some(metadata("created"))))),
        "revision act is required"
    );
    assert_eq!(
        projection_error(project_target_repo_runner_revision_receipt(&receipt(ActForm::Revision, refs.clone(), None))),
        "target runner metadata is required"
    );
    let mut deferred = receipt(ActForm::Revision, refs, Some(metadata("created")));
    deferred.seal.disposition = ClosureDisposition::Deferred;
    assert_eq!(
        projection_error(project_target_repo_runner_revision_receipt(&deferred)),
        "receipt is not sealed"
    );
    let refs = vec![
        reference(ReferenceType::GithubPullRequest, "https://github.com/a/b/pull/1"),
        reference(ReferenceType::GithubRepo, "https://github.com/a/b"),
    ];
    assert_eq!(
        projection_error(project_target_repo_runner_revision_receipt(&receipt(ActForm::Revision, refs, Some(metadata("merged"))))),
        "target runner disposition is invalid"
    );
}

#[test]
fn publication_receipts_list_only_published_refs() {
    let refs = vec![
        reference(ReferenceType::SlackThread, "slack://C1/1"),
        reference(ReferenceType::Artifact, "runx:artifact:reply"),
        reference(ReferenceType::GithubPullRequest, "https://github.com/a/b/pull/1"),
        reference(ReferenceType::GithubIssue, "https://github.com/a/b/issues/2"),
        reference(ReferenceType::Verification, "runx:verification:v"),
    ];
    let projection = project_target_repo_runner_source_publication_receipt(&receipt(ActForm::Reply, refs, Some(JsonObject::new()))).unwrap();
    let uris: Vec<&str> = projection.published_refs.iter().map(|r| r.uri.as_str()).collect();
    assert_eq!(uris, vec!["runx:artifact:reply", "runx:verification:v"]);
    assert_eq!(projection.source_issue_ref.unwrap().uri, "https://github.com/a/b/issues/2");
    assert_eq!(projection.source_thread_ref.uri, "slack://C1/1");
}

#[test]
fn publication_receipts_need_a_thread() {
    let refs = vec![reference(ReferenceType::GithubPullRequest, "https://github.com/a/b/pull/1")];
    assert_eq!(
        projection_error(project_target_repo_runner_source_publication_receipt(&receipt(ActForm::Reply, refs, Some(JsonObject::new())))),
        "source publication thread ref is required"
    );
}
