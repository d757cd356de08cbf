//! Payment rules that a graph step must meet at run time: a `payment:spend`
//! step only succeeds once a sealed rail proof stands in its receipt.
use vstd::prelude::*;
use crate::adapter::{InvocationStatus, SkillOutput};
use crate::receipt::{HarnessAct, HarnessReceipt};
use crate::reference::{opt_str, Reference, ReferenceType, ReferenceView};
use crate::text::str_eq;

verus! {

pub const PAYMENT_SPEND_SCOPE: &'static str = "payment:spend";

pub const PAYMENT_RAIL_PROOF_LABEL: &'static str = "payment rail proof";

pub const RECEIPT_BEFORE_SUCCESS_REASON: &'static str = "payment:spend success requires a sealed rail proof reference";

/// A step refused by the payment rules.
#[derive(Clone, Debug, PartialEq)]
pub enum StepPaymentError {
    PaymentAuthorityDenied { step_id: String, reason: String },
}

/// The step's scopes include `payment:spend`.
pub open spec fn spends(scopes: Seq<String>) -> bool {
    exists|i: int| 0 <= i < scopes.len() && #[trigger] scopes[i]@ == PAYMENT_SPEND_SCOPE@
}

/// A verification reference labelled as the payment rail proof.
pub open spec fn rail_proof_ref(r: ReferenceView) -> bool {
    r.reference_type == ReferenceType::Verification && r.label == Some(PAYMENT_RAIL_PROOF_LABEL@)
}

/// Some act of the receipt carries a rail proof among its verification
/// references.
pub open spec fn receipt_has_rail_proof(receipt: HarnessReceipt) -> bool {
    exists|a: int, k: int|
        0 <= a < receipt.harness.acts@.len() && 0 <= k < receipt.harness.acts@[a].verification_refs@.len()
            && rail_proof_ref(#[trigger] receipt.harness.acts@[a].verification_refs@[k]@)
}

/// The step is a payment spend.
pub fn payment_spend_step(scopes: &Vec<String>) -> (b: bool)
    ensures
        b == spends(scopes@),
{
    let mut i: usize = 0;
    while i < scopes.len()
        invariant
            i <= scopes@.len(),
            forall|j: int| 0 <= j < i ==> #[trigger] scopes@[j]@ != PAYMENT_SPEND_SCOPE@,
        decreases scopes@.len() - i,
    {
        if str_eq(scopes[i].as_str(), PAYMENT_SPEND_SCOPE) {
            return true;
        }
        i += 1;
    }
    false
}

/// A verification reference labelled
/// "payment rail proof".
pub fn is_payment_rail_proof_ref(reference: &Reference) -> (b: bool)
    ensures
        b == rail_proof_ref(reference@),
{
    if reference.reference_type != ReferenceType::Verification {
        return false;
    }
    match &reference.label {
        Some(label) => str_eq(label.as_str(), PAYMENT_RAIL_PROOF_LABEL),
        None => false,
    }
}

fn act_has_rail_proof(act: &HarnessAct) -> (b: bool)
    ensures
        b == exists|k: int| 0 <= k < act.verification_refs@.len() && rail_proof_ref(#[trigger] act.verification_refs@[k]@),
{
    let mut k: usize = 0;
    while k < act.verification_refs.len()
        invariant
            k <= act.verification_refs@.len(),
            forall|j: int| 0 <= j < k ==> !rail_proof_ref(#[trigger] act.verification_refs@[j]@),
        decreases act.verification_refs@.len() - k,
    {
        if is_payment_rail_proof_ref(&act.verification_refs[k]) {
            return true;
        }
        k += 1;
    }
    false
}

/// The refusal of a step, with its reason.
pub fn payment_authority_denied(step_id: &str, reason: String) -> (e: StepPaymentError)
    ensures
        e matches StepPaymentError::PaymentAuthorityDenied { step_id: s, reason: r } && s@ == step_id@ && r@ == reason@,
{
    StepPaymentError::PaymentAuthorityDenied { step_id: step_id.to_owned(), reason }
}

/// A successful `payment:spend`
/// step is refused unless its receipt carries a rail proof; any other step,
/// or a failed one, passes.
pub fn enforce_payment_receipt_before_success(
    step_id: &str,
    scopes: &Vec<String>,
    output: &SkillOutput,
    receipt: &HarnessReceipt,
) -> (r: Result<(), StepPaymentError>)
    ensures
        (output.status == InvocationStatus::Success && spends(scopes@) && !receipt_has_rail_proof(*receipt))
            <==> r is Err,
        r matches Err(StepPaymentError::PaymentAuthorityDenied { step_id: s, reason }) ==> s@ == step_id@
            && reason@ == RECEIPT_BEFORE_SUCCESS_REASON@,
{
    if !output.succeeded() || !payment_spend_step(scopes) {
        return Ok(());
    }
    let acts = &receipt.harness.acts;
    let mut a: usize = 0;
    while a < acts.len()
        invariant
            a <= acts@.len(),
            acts@ == receipt.harness.acts@,
            forall|i: int, k: int|
                0 <= i < a && 0 <= k < acts@[i].verification_refs@.len() ==> !rail_proof_ref(
                    #[trigger] acts@[i].verification_refs@[k]@,
                ),
        decreases acts@.len() - a,
    {
        if act_has_rail_proof(&acts[a]) {
            return Ok(());
        }
        a += 1;
    }
    Err(payment_authority_denied(step_id, RECEIPT_BEFORE_SUCCESS_REASON.to_owned()))
}

} // verus!
