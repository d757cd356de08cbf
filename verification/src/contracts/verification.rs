//! Verification contracts: checks and statuses for governed verification.
use vstd::prelude::*;
use crate::reference::Reference;

verus! {

/// The schema identifier of a verification document.
pub const VERIFICATION_SCHEMA: &'static str = "runx.verification.v1";

#[derive(Clone, Copy, Debug, PartialEq, Eq, Structural)]
pub enum VerificationSchema {
    V1,
}

#[derive(Clone, Copy, Debug, PartialEq, Eq, Structural)]
pub enum VerificationStatus {
    Passed,
    Failed,
    Pending,
    NotApplicable,
    Missing,
}

#[derive(Clone, Debug, PartialEq)]
pub struct VerificationCheck {
    pub check_id: String,
    pub criterion_ids: Vec<String>,
    pub status: VerificationStatus,
    pub summary: Option<String>,
    pub checked_refs: Vec<Reference>,
    pub evidence_refs: Vec<Reference>,
    pub verified_at: Option<String>,
}

#[derive(Clone, Debug, PartialEq)]
pub struct Verification {
    pub schema: Option<VerificationSchema>,
    pub verification_id: Option<String>,
    pub status: VerificationStatus,
    pub checks: Vec<VerificationCheck>,
    pub verified_at: Option<String>,
    pub evidence_refs: Vec<Reference>,
}

#[derive(Clone, Copy, Debug, PartialEq, Eq, Structural)]
pub struct ReceiptVerificationSummary {
    pub signature_valid: bool,
    pub content_address_valid: bool,
    pub hash_commitments_valid: bool,
    pub authority_attenuation_valid: bool,
    pub criteria_bound: bool,
    pub redaction_valid: bool,
    pub external_attestations_present: bool,
}

} // verus!
