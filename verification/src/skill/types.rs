//! The typed model of a validated skill document.
use vstd::prelude::*;
use crate::json::{JsonData, JsonObject, JsonValue, owned_data};
use crate::skill::fields::ObjData;

verus! {

/// The parsed frontmatter and body of a skill document.
#[derive(Clone, Debug, PartialEq)]
pub struct RawSkillIr {
    pub frontmatter: JsonObject,
    pub raw_frontmatter: String,
    pub body: String,
}

/// One declared input of a skill.
#[derive(Clone, Debug, PartialEq)]
pub struct SkillInput {
    pub input_type: String,
    pub required: bool,
    pub description: Option<String>,
    pub default: Option<JsonValue>,
}

pub struct InputView {
    pub input_type: Seq<char>,
    pub required: bool,
    pub description: Option<Seq<char>>,
    pub default: Option<JsonData>,
}

impl View for SkillInput {
    type V = InputView;

    open spec fn view(&self) -> InputView {
        InputView {
            input_type: self.input_type@,
            required: self.required,
            description: match self.description {
                Some(d) => Some(d@),
                None => None,
            },
            default: owned_data(self.default),
        }
    }
}

#[derive(Clone, Copy, Debug, PartialEq, Eq, Structural)]
pub struct SkillRetryPolicy {
    pub max_attempts: u64,
}

#[derive(Clone, Debug, PartialEq)]
pub struct SkillIdempotencyPolicy {
    pub key: Option<String>,
}

/// Closed set of built-in skill source kinds. Custom adapters are the
/// `ExternalAdapter` kind, identified by their manifest.
#[derive(Clone, Copy, Debug, PartialEq, Eq, Structural)]
pub enum SourceKind {
    CliTool,
    Mcp,
    Catalog,
    A2a,
    Agent,
    AgentStep,
    HarnessHook,
    Graph,
    ExternalAdapter,
}

pub open spec fn source_kind_name(k: SourceKind) -> Seq<char> {
    match k {
        SourceKind::CliTool => "cli-tool"@,
        SourceKind::Mcp => "mcp"@,
        SourceKind::Catalog => "catalog"@,
        SourceKind::A2a => "a2a"@,
        SourceKind::Agent => "agent"@,
        SourceKind::AgentStep => "agent-step"@,
        SourceKind::HarnessHook => "harness-hook"@,
        SourceKind::Graph => "graph"@,
        SourceKind::ExternalAdapter => "external-adapter"@,
    }
}

impl SourceKind {
    /// The kind's name in a skill document.
    pub fn as_str(&self) -> (r: &'static str)
        ensures
            r@ == source_kind_name(*self),
    {
        match self {
            SourceKind::CliTool => "cli-tool",
            SourceKind::Mcp => "mcp",
            SourceKind::Catalog => "catalog",
            SourceKind::A2a => "a2a",
            SourceKind::Agent => "agent",
            SourceKind::AgentStep => "agent-step",
            SourceKind::HarnessHook => "harness-hook",
            SourceKind::Graph => "graph",
            SourceKind::ExternalAdapter => "external-adapter",
        }
    }
}

/// How a command-line source receives its inputs. `NoInput` is written
/// `none` in a skill document.
#[derive(Clone, Copy, Debug, PartialEq, Eq, Structural)]
pub enum InputMode {
    Args,
    Stdin,
    NoInput,
}

pub open spec fn input_mode_name(m: InputMode) -> Seq<char> {
    match m {
        InputMode::Args => "args"@,
        InputMode::Stdin => "stdin"@,
        InputMode::NoInput => "none"@,
    }
}

impl InputMode {
    pub fn as_str(&self) -> (r: &'static str)
        ensures
            r@ == input_mode_name(*self),
    {
        match self {
            InputMode::Args => "args",
            InputMode::Stdin => "stdin",
            InputMode::NoInput => "none",
        }
    }
}

/// The sandbox profile a source asks for.
#[derive(Clone, Copy, Debug, PartialEq, Eq, Structural)]
pub enum SandboxProfile {
    Readonly,
    WorkspaceWrite,
    Network,
    UnrestrictedLocalDev,
}

/// Where a sandboxed source runs.
#[derive(Clone, Copy, Debug, PartialEq, Eq, Structural)]
pub enum CwdPolicy {
    SkillDirectory,
    Workspace,
    Custom,
}

pub open spec fn sandbox_profile_name(p: SandboxProfile) -> Seq<char> {
    match p {
        SandboxProfile::Readonly => "readonly"@,
        SandboxProfile::WorkspaceWrite => "workspace-write"@,
        SandboxProfile::Network => "network"@,
        SandboxProfile::UnrestrictedLocalDev => "unrestricted-local-dev"@,
    }
}

impl SandboxProfile {
    /// The profile's name in a skill document.
    pub fn as_str(&self) -> (r: &'static str)
        ensures
            r@ == sandbox_profile_name(*self),
    {
        match self {
            SandboxProfile::Readonly => "readonly",
            SandboxProfile::WorkspaceWrite => "workspace-write",
            SandboxProfile::Network => "network",
            SandboxProfile::UnrestrictedLocalDev => "unrestricted-local-dev",
        }
    }
}

pub open spec fn cwd_policy_name(p: CwdPolicy) -> Seq<char> {
    match p {
        CwdPolicy::SkillDirectory => "skill-directory"@,
        CwdPolicy::Workspace => "workspace"@,
        CwdPolicy::Custom => "custom"@,
    }
}

impl CwdPolicy {
    /// The policy's name in a skill document.
    pub fn as_str(&self) -> (r: &'static str)
        ensures
            r@ == cwd_policy_name(*self),
    {
        match self {
            CwdPolicy::SkillDirectory => "skill-directory",
            CwdPolicy::Workspace => "workspace",
            CwdPolicy::Custom => "custom",
        }
    }
}

#[derive(Clone, Debug, PartialEq)]
pub struct SkillMcpServer {
    pub command: String,
    pub args: Vec<String>,
    pub cwd: Option<String>,
}

/// The sandbox a source declares, as declared.
#[derive(Clone, Debug, PartialEq)]
pub struct SkillSandbox {
    pub profile: SandboxProfile,
    pub cwd_policy: Option<CwdPolicy>,
    pub env_allowlist: Option<Vec<String>>,
    pub network: Option<bool>,
    pub writable_paths: Vec<String>,
    pub require_enforcement: Option<bool>,
    pub approved_escalation: Option<bool>,
    pub raw: JsonObject,
}

/// Where a skill runs and with what.
#[derive(Clone, Debug, PartialEq)]
pub struct SkillSource {
    pub source_type: SourceKind,
    pub command: Option<String>,
    pub args: Vec<String>,
    pub cwd: Option<String>,
    pub timeout_seconds: Option<u64>,
    pub input_mode: Option<InputMode>,
    pub sandbox: Option<SkillSandbox>,
    pub server: Option<SkillMcpServer>,
    pub catalog_ref: Option<String>,
    pub tool: Option<String>,
    pub arguments: Option<JsonObject>,
    pub agent_card_url: Option<String>,
    pub agent_identity: Option<String>,
    pub agent: Option<String>,
    pub task: Option<String>,
    pub hook: Option<String>,
    pub outputs: Option<JsonObject>,
    pub graph: Option<JsonObject>,
    pub raw: JsonObject,
}

/// What a skill emits as artifacts.
#[derive(Clone, Debug, PartialEq)]
pub struct SkillArtifactContract {
    pub emits: Option<Vec<String>>,
    pub named_emits: Option<Vec<(String, String)>>,
    pub wrap_as: Option<String>,
}

#[derive(Clone, Debug, PartialEq)]
pub struct SkillQualityProfile {
    pub heading: String,
    pub content: String,
}

#[derive(Clone, Copy, Debug, PartialEq, Eq, Structural)]
pub enum ValidateSkillMode {
    Strict,
    Lenient,
}

#[derive(Clone, Copy, Debug, PartialEq, Eq, Structural)]
pub struct ValidateSkillOptions {
    pub mode: ValidateSkillMode,
}

impl Default for ValidateSkillOptions {
    fn default() -> (r: Self)
        ensures
            r.mode == ValidateSkillMode::Strict,
    {
        ValidateSkillOptions { mode: ValidateSkillMode::Strict }
    }
}

impl ValidateSkillOptions {
    pub fn strict() -> (r: Self)
        ensures
            r.mode == ValidateSkillMode::Strict,
    {
        ValidateSkillOptions { mode: ValidateSkillMode::Strict }
    }

    pub fn lenient() -> (r: Self)
        ensures
            r.mode == ValidateSkillMode::Lenient,
    {
        ValidateSkillOptions { mode: ValidateSkillMode::Lenient }
    }
}

/// How a governed run ended, as a skill declares it.
#[derive(Clone, Copy, Debug, PartialEq, Eq, Structural)]
pub enum GovernedDisposition {
    Completed,
    NeedsAgent,
    PolicyDenied,
    ApprovalRequired,
    Observing,
    Escalated,
}

#[derive(Clone, Copy, Debug, PartialEq, Eq, Structural)]
pub enum OutcomeState {
    Pending,
    Complete,
    Expired,
}

#[derive(Clone, Debug, PartialEq)]
pub struct ReceiptOutcome {
    pub code: Option<String>,
    pub summary: Option<String>,
    pub observed_at: Option<String>,
    pub data: Option<JsonObject>,
}

#[derive(Clone, Debug, PartialEq)]
pub struct InputContextCapture {
    pub capture: Option<bool>,
    pub source: Option<String>,
    pub max_bytes: Option<u64>,
    pub snapshot: Option<JsonValue>,
}

#[derive(Clone, Debug, PartialEq)]
pub struct ReceiptSurfaceRef {
    pub surface_type: String,
    pub uri: String,
    pub label: Option<String>,
}

/// What a skill declares about the receipt of its runs.
#[derive(Clone, Debug, PartialEq)]
pub struct ExecutionSemantics {
    pub disposition: Option<GovernedDisposition>,
    pub outcome_state: Option<OutcomeState>,
    pub outcome: Option<ReceiptOutcome>,
    pub input_context: Option<InputContextCapture>,
    pub surface_refs: Option<Vec<ReceiptSurfaceRef>>,
    pub evidence_refs: Option<Vec<ReceiptSurfaceRef>>,
}

/// A skill document that passed validation.
#[derive(Clone, Debug, PartialEq)]
pub struct ValidatedSkill {
    pub name: String,
    pub description: Option<String>,
    pub body: String,
    pub source: SkillSource,
    pub inputs: Vec<(String, SkillInput)>,
    pub auth: Option<JsonValue>,
    pub risk: Option<JsonValue>,
    pub runtime: Option<JsonValue>,
    pub retry: Option<SkillRetryPolicy>,
    pub idempotency: Option<SkillIdempotencyPolicy>,
    pub mutating: Option<bool>,
    pub artifacts: Option<SkillArtifactContract>,
    pub quality_profile: Option<SkillQualityProfile>,
    pub allowed_tools: Option<Vec<String>>,
    pub execution: Option<ExecutionSemantics>,
    pub runx: Option<JsonObject>,
    pub raw: RawSkillIr,
}

/// One named runner of a skill.
#[derive(Clone, Debug, PartialEq)]
pub struct SkillRunnerDefinition {
    pub name: String,
    pub default: bool,
    pub source: SkillSource,
    pub inputs: Vec<(String, SkillInput)>,
    pub auth: Option<JsonValue>,
    pub risk: Option<JsonValue>,
    pub runtime: Option<JsonValue>,
    pub retry: Option<SkillRetryPolicy>,
    pub idempotency: Option<SkillIdempotencyPolicy>,
    pub mutating: Option<bool>,
    pub artifacts: Option<SkillArtifactContract>,
    pub allowed_tools: Option<Vec<String>>,
    pub execution: Option<ExecutionSemantics>,
    pub runx: Option<JsonObject>,
    pub raw: JsonObject,
}

#[derive(Clone, Copy, Debug, PartialEq, Eq, Structural)]
pub enum CatalogKind {
    Skill,
    Graph,
}

#[derive(Clone, Copy, Debug, PartialEq, Eq, Structural)]
pub enum CatalogAudience {
    Public,
    Builder,
    Operator,
}

#[derive(Clone, Copy, Debug, PartialEq, Eq, Structural)]
pub enum CatalogVisibility {
    Public,
    Private,
}

impl CatalogKind {
    pub fn as_str(&self) -> (r: &'static str)
        ensures
            r@ == (match *self {
                CatalogKind::Skill => "skill"@,
                CatalogKind::Graph => "graph"@,
            }),
    {
        match self {
            CatalogKind::Skill => "skill",
            CatalogKind::Graph => "graph",
        }
    }
}

impl CatalogAudience {
    pub fn as_str(&self) -> (r: &'static str)
        ensures
            r@ == (match *self {
                CatalogAudience::Public => "public"@,
                CatalogAudience::Builder => "builder"@,
                CatalogAudience::Operator => "operator"@,
            }),
    {
        match self {
            CatalogAudience::Public => "public",
            CatalogAudience::Builder => "builder",
            CatalogAudience::Operator => "operator",
        }
    }
}

impl CatalogVisibility {
    pub fn as_str(&self) -> (r: &'static str)
        ensures
            r@ == (match *self {
                CatalogVisibility::Public => "public"@,
                CatalogVisibility::Private => "private"@,
            }),
    {
        match self {
            CatalogVisibility::Public => "public",
            CatalogVisibility::Private => "private",
        }
    }
}

#[derive(Clone, Copy, Debug, PartialEq, Eq, Structural)]
pub struct CatalogMetadata {
    pub kind: CatalogKind,
    pub audience: CatalogAudience,
    pub visibility: CatalogVisibility,
}

#[derive(Clone, Debug, PartialEq)]
pub struct HarnessCallerFixture {
    pub answers: Option<JsonObject>,
    pub approvals: Option<Vec<(String, bool)>>,
}

#[derive(Clone, Debug, PartialEq)]
pub struct ReceiptExpectation {
    pub kind: Option<String>,
    pub status: Option<String>,
    pub skill_name: Option<String>,
    pub source_type: Option<String>,
    pub graph_name: Option<String>,
    pub owner: Option<String>,
}

#[derive(Clone, Debug, PartialEq)]
pub struct HarnessExpectation {
    pub status: Option<String>,
    pub receipt: Option<ReceiptExpectation>,
    pub steps: Option<Vec<String>>,
}

#[derive(Clone, Debug, PartialEq)]
pub struct RunnerHarnessCase {
    pub name: String,
    pub runner: Option<String>,
    pub inputs: JsonObject,
    pub env: Vec<(String, String)>,
    pub caller: HarnessCallerFixture,
    pub expect: HarnessExpectation,
}

#[derive(Clone, Debug, PartialEq)]
pub struct RunnerHarnessManifest {
    pub cases: Vec<RunnerHarnessCase>,
}

} // verus!
