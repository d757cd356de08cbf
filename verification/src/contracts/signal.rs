//! Signal contracts: trust-tagged events that enter the act lifecycle.
use vstd::prelude::*;
use crate::json::{JsonObject, JsonValue};
use crate::reference::Reference;

verus! {

/// The schema identifier of a signal document.
pub const SIGNAL_SCHEMA: &'static str = "runx.signal.v1";

#[derive(Clone, Copy, Debug, PartialEq, Eq, Structural)]
pub enum SignalSchema {
    V1,
}

#[derive(Clone, Copy, Debug, PartialEq, Eq, Structural)]
pub enum SignalType {
    IssueOpened,
    IssueComment,
    PullRequestEvent,
    ReviewEvent,
    ChatMessage,
    Alert,
    DeploymentEvent,
    PaymentRequired,
    ScheduleTick,
    OperatorNote,
    SystemEvent,
}

#[derive(Clone, Copy, Debug, PartialEq, Eq, Structural)]
pub enum SignalTrustLevel {
    Unverified,
    Observed,
    VerifiedDelivery,
    VerifiedSignature,
    OperatorAttested,
}

#[derive(Clone, Debug, PartialEq)]
pub struct SignalAuthenticity {
    pub host_ref: Reference,
    pub principal_ref: Option<Reference>,
    pub verified_by_ref: Option<Reference>,
    pub trust_level: SignalTrustLevel,
    pub verified_at: Option<String>,
    pub signature_refs: Vec<Reference>,
    pub evidence_refs: Vec<Reference>,
}

/// A signal. The fingerprint and links are carried as the JSON documents
/// they arrive as.
#[derive(Clone, Debug, PartialEq)]
pub struct Signal {
    pub schema: SignalSchema,
    pub signal_id: String,
    pub source_ref: Reference,
    pub authenticity: Option<SignalAuthenticity>,
    pub signal_type: SignalType,
    pub title: String,
    pub body_preview: Option<String>,
    pub observed_at: String,
    pub evidence_refs: Vec<Reference>,
    pub fingerprint: Option<JsonValue>,
    pub links: Option<JsonValue>,
    pub extensions: Option<JsonObject>,
}

} // verus!
