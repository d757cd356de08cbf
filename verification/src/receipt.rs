//! Sealed harness receipts, as far as the runtime reads them.
use vstd::prelude::*;
use crate::json::JsonObject;
use crate::reference::Reference;

verus! {

/// The idempotency identity of a harness run.
#[derive(Clone, Debug, PartialEq)]
pub struct HarnessIdempotency {
    pub intent_key: String,
    pub content_hash: String,
}

/// One act recorded in a harness, with the references that verified it.
#[derive(Clone, Debug, PartialEq)]
pub struct HarnessAct {
    pub id: String,
    pub verification_refs: Vec<Reference>,
}

#[derive(Clone, Debug, PartialEq)]
pub struct Harness {
    pub idempotency: HarnessIdempotency,
    pub acts: Vec<HarnessAct>,
}

/// How a harness was closed.
#[derive(Clone, Debug, PartialEq)]
pub struct HarnessSeal {
    pub reason_code: String,
    pub digest: String,
    pub closed_at: String,
}

/// A sealed harness receipt.
#[derive(Clone, Debug, PartialEq)]
pub struct HarnessReceipt {
    pub id: String,
    pub seal: HarnessSeal,
    pub harness: Harness,
}

/// How a receipt's closure ended: sealed, or deferred to a later event.
#[derive(Clone, Copy, Debug, PartialEq, Eq, Structural)]
pub enum ClosureDisposition {
    Sealed,
    Deferred,
}

/// The form of an act recorded in a receipt, as the projections read it:
/// a revision, a reply, or an act of another form.
#[derive(Clone, Copy, Debug, PartialEq, Eq, Structural)]
pub enum ActForm {
    Revision,
    Reply,
    Other,
}

#[derive(Clone, Debug, PartialEq)]
pub struct ReceiptSeal {
    pub disposition: ClosureDisposition,
    pub summary: String,
}

#[derive(Clone, Debug, PartialEq)]
pub struct ReceiptAct {
    pub id: String,
    pub form: ActForm,
    pub artifact_refs: Vec<Reference>,
}

/// A receipt, as far as the target-runner projections read it.
#[derive(Clone, Debug, PartialEq)]
pub struct Receipt {
    pub id: String,
    pub seal: ReceiptSeal,
    pub acts: Vec<ReceiptAct>,
    pub metadata: Option<JsonObject>,
}

} // verus!
