use runx::adapter::{InvocationStatus, SkillOutput};
use runx::json::JsonObject;
use runx::receipt::{Harness, HarnessAct, HarnessIdempotency, HarnessReceipt, HarnessSeal};
use runx::reference::{Reference, ReferenceType};
use runx::step_payment::{
    StepPaymentError, enforce_payment_receipt_before_success, is_payment_rail_proof_ref,
    payment_spend_step,
};

fn output(status: InvocationStatus) -> SkillOutput {
    SkillOutput {
        status,
        stdout: String::new(),
        stderr: String::new(),
        exit_code: Some(0),
        duration_ms: 1,
        metadata: JsonObject::new(),
    }
}

fn proof_ref(label: Option<&str>, t: ReferenceType) -> Reference {
    Reference {
        reference_type: t,
        uri: "runx:verification:rail".to_owned(),
        provider: None,
        locator: None,
        label: label.map(str::to_owned),
        observed_at: None,
        proof_kind: None,
    }
}

fn receipt(refs: Vec<Reference>) -> HarnessReceipt {
    HarnessReceipt {
        id: "hr_1".to_owned(),
        seal: HarnessSeal {
            reason_code: "sealed".to_owned(),
            digest: "sha256:x".to_owned(),
            closed_at: "2026-01-01T00:00:00Z".to_owned(),
        },
        harness: Harness {
            idempotency: HarnessIdempotency {
                intent_key: "k".to_owned(),
                content_hash: "h".to_owned(),
            },
            acts: vec![
                HarnessAct { id: "act_0".to_owned(), verification_refs: Vec::new() },
                HarnessAct { id: "act_1".to_owned(), verification_refs: refs },
            ],
        },
    }
}

fn scopes(values: &[&str]) -> Vec<String> {
    values.iter().map(|s| (*s).to_owned()).collect()
}

#[test]
fn spend_steps_are_recognized_by_scope() {
    assert!(payment_spend_step(&scopes(&["read", "payment:spend"])));
    assert!(!payment_spend_step(&scopes(&["payment:reserve"])));
    assert!(!payment_spend_step(&Vec::new()));
}

#[test]
fn rail_proofs_are_labelled_verifications() {
    assert!(is_payment_rail_proof_ref(&proof_ref(Some("payment rail proof"), ReferenceType::Verification)));
    assert!(!is_payment_rail_proof_ref(&proof_ref(Some("payment rail proof"), ReferenceType::Artifact)));
    assert!(!is_payment_rail_proof_ref(&proof_ref(Some("other"), ReferenceType::Verification)));
    assert!(!is_payment_rail_proof_ref(&proof_ref(None, ReferenceType::Verification)));
}

#[test]
fn successful_spend_without_rail_proof_is_denied() {
    let result = enforce_payment_receipt_before_success(
        "pay",
        &scopes(&["payment:spend"]),
        &output(InvocationStatus::Success),
        &receipt(vec![proof_ref(Some("other"), ReferenceType::Verification)]),
    );
    assert_eq!(
        result,
        Err(StepPaymentError::PaymentAuthorityDenied {
            step_id: "pay".to_owned(),
            reason: "payment:spend success requires a sealed rail proof reference".to_owned()
        })
    );
}

#[test]
fn rail_proof_or_failure_or_other_steps_pass() {
    let with_proof = receipt(vec![proof_ref(Some("payment rail proof"), ReferenceType::Verification)]);
    let without = receipt(Vec::new());
    let spend = scopes(&["payment:spend"]);
    assert_eq!(
        enforce_payment_receipt_before_success("pay", &spend, &output(InvocationStatus::Success), &with_proof),
        Ok(())
    );
    assert_eq!(
        enforce_payment_receipt_before_success("pay", &spend, &output(InvocationStatus::Failure), &without),
        Ok(())
    );
    assert_eq!(
        enforce_payment_receipt_before_success("read", &scopes(&["read"]), &output(InvocationStatus::Success), &without),
        Ok(())
    );
}
