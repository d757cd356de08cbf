//! External adapter contract types.
use vstd::prelude::*;
use crate::json::{JsonNumber, JsonObject, JsonValue};
use crate::reference::Reference;

verus! {

/// The protocol version every frame of the external adapter protocol carries.
pub const EXTERNAL_ADAPTER_PROTOCOL_VERSION: &'static str = "runx.external_adapter.v1";

#[derive(Clone, Copy, Debug, PartialEq, Eq, Structural)]
pub enum ExternalAdapterTransportKind {
    Process,
    Http,
}

#[derive(Clone, Copy, Debug, PartialEq, Eq, Structural)]
pub enum ExternalAdapterStatus {
    Completed,
    Failed,
    HostResolutionRequested,
    Cancelled,
}

#[derive(Clone, Copy, Debug, PartialEq, Eq, Structural)]
pub enum ExternalAdapterCredentialPurpose {
    ProviderApi,
    Registry,
    ArtifactStore,
    WebhookVerification,
}

#[derive(Clone, Debug, PartialEq)]
pub struct ExternalAdapterTransport {
    pub kind: ExternalAdapterTransportKind,
    pub command: Option<String>,
    pub args: Option<Vec<String>>,
    pub endpoint: Option<String>,
}

#[derive(Clone, Debug, PartialEq)]
pub struct ExternalAdapterCredentialNeed {
    pub purpose: ExternalAdapterCredentialPurpose,
    pub provider: String,
    pub scope_refs: Option<Vec<Reference>>,
    pub required: bool,
}

#[derive(Clone, Debug, PartialEq)]
pub struct ExternalAdapterSandboxIntent {
    pub profile: String,
    pub network: bool,
    pub cwd_policy: String,
    pub writable_paths: Option<Vec<String>>,
}

#[derive(Clone, Copy, Debug, PartialEq, Eq, Structural)]
pub struct ExternalAdapterTimeouts {
    pub startup_ms: u64,
    pub invocation_ms: u64,
}

/// What an adapter declares about itself.
#[derive(Clone, Debug, PartialEq)]
pub struct ExternalAdapterManifest {
    pub schema: String,
    pub protocol_version: String,
    pub adapter_id: String,
    pub name: String,
    pub version: String,
    pub supported_source_types: Vec<String>,
    pub transport: ExternalAdapterTransport,
    pub timeouts: ExternalAdapterTimeouts,
    pub credential_needs: Option<Vec<ExternalAdapterCredentialNeed>>,
    pub sandbox_intent: ExternalAdapterSandboxIntent,
    pub metadata: Option<JsonObject>,
}

#[derive(Clone, Debug, PartialEq)]
pub struct ExternalAdapterCredentialReference {
    pub credential_ref: Reference,
    pub provider: String,
    pub purpose: ExternalAdapterCredentialPurpose,
}

#[derive(Clone, Debug, PartialEq)]
pub struct ExternalAdapterCredentialRequest {
    pub schema: String,
    pub protocol_version: String,
    pub request_id: String,
    pub adapter_id: String,
    pub invocation_id: String,
    pub credential_refs: Vec<ExternalAdapterCredentialReference>,
    pub requested_at: String,
}

/// One invocation frame sent to an adapter.
#[derive(Clone, Debug, PartialEq)]
pub struct ExternalAdapterInvocation {
    pub schema: String,
    pub protocol_version: String,
    pub invocation_id: String,
    pub adapter_id: String,
    pub run_id: String,
    pub step_id: String,
    pub source_type: String,
    pub skill_ref: String,
    pub harness_ref: Reference,
    pub host_ref: Reference,
    pub inputs: JsonObject,
    pub resolved_inputs: Option<JsonObject>,
    pub cwd: Option<String>,
    pub receipt_dir: Option<String>,
    pub env: Option<JsonObject>,
    pub credential_refs: Option<Vec<ExternalAdapterCredentialReference>>,
    pub metadata: Option<JsonObject>,
}

#[derive(Clone, Debug, PartialEq)]
pub struct ExternalAdapterArtifactObservation {
    pub artifact_ref: Reference,
    pub summary: Option<String>,
}

#[derive(Clone, Debug, PartialEq)]
pub struct ExternalAdapterErrorObservation {
    pub code: String,
    pub message: String,
    pub retryable: bool,
}

#[derive(Clone, Debug, PartialEq)]
pub enum ExternalAdapterTelemetryValue {
    Number(JsonNumber),
    String(String),
    Bool(bool),
}

#[derive(Clone, Debug, PartialEq)]
pub struct ExternalAdapterTelemetryObservation {
    pub name: String,
    pub value: ExternalAdapterTelemetryValue,
    pub unit: Option<String>,
}

/// The response frame an adapter returns for an invocation. `exit_code` is
/// `None` when the field is absent and `Some(None)` when it is `null`.
#[derive(Clone, Debug, PartialEq)]
pub struct ExternalAdapterResponse {
    pub schema: String,
    pub protocol_version: String,
    pub invocation_id: String,
    pub adapter_id: String,
    pub status: ExternalAdapterStatus,
    pub stdout: Option<String>,
    pub stderr: Option<String>,
    pub exit_code: Option<Option<i64>>,
    pub output: Option<JsonObject>,
    pub artifacts: Option<Vec<ExternalAdapterArtifactObservation>>,
    pub errors: Option<Vec<ExternalAdapterErrorObservation>>,
    pub telemetry: Option<Vec<ExternalAdapterTelemetryObservation>>,
    pub metadata: Option<JsonObject>,
    pub observed_at: String,
}

/// A frame in which the adapter asks the host to resolve something; the
/// request is carried as the JSON document it was sent as.
#[derive(Clone, Debug, PartialEq)]
pub struct ExternalAdapterHostResolutionFrame {
    pub schema: String,
    pub protocol_version: String,
    pub frame_id: String,
    pub invocation_id: String,
    pub adapter_id: String,
    pub request: JsonValue,
    pub requested_at: String,
}

#[derive(Clone, Debug, PartialEq)]
pub struct ExternalAdapterCancellationFrame {
    pub schema: String,
    pub protocol_version: String,
    pub frame_id: String,
    pub invocation_id: String,
    pub adapter_id: String,
    pub reason: String,
    pub requested_at: String,
}

} // verus!
