//! What a skill adapter reports back to the runtime.
use vstd::prelude::*;
use crate::json::JsonObject;
use crate::skill::types::SkillSource;

verus! {

#[derive(Clone, Copy, Debug, PartialEq, Eq, Structural)]
pub enum InvocationStatus {
    Success,
    Failure,
}

/// The result of running one skill.
#[derive(Clone, Debug, PartialEq)]
pub struct SkillOutput {
    pub status: InvocationStatus,
    pub stdout: String,
    pub stderr: String,
    pub exit_code: Option<i32>,
    pub duration_ms: u64,
    pub metadata: JsonObject,
}

impl SkillOutput {
    /// The run succeeded.
    pub fn succeeded(&self) -> (b: bool)
        ensures
            b == (self.status == InvocationStatus::Success),
    {
        self.status == InvocationStatus::Success
    }
}

/// One run of a skill as the adapters here read it: the skill, its source,
/// the inputs (and those resolved by the caller), the skill's directory
/// and the environment the run may read.
#[derive(Clone, Debug, PartialEq)]
pub struct SkillInvocation {
    pub skill_name: String,
    pub source: SkillSource,
    pub inputs: JsonObject,
    pub resolved_inputs: JsonObject,
    pub skill_directory: String,
    pub env: Vec<(String, String)>,
}

/// Why the runtime could not run a skill through an adapter.
#[derive(Clone, Debug, PartialEq)]
pub enum RuntimeError {
    /// The adapter does not run sources of this type.
    UnsupportedAdapter { adapter_type: String },
    /// The adapter ran and failed.
    SkillFailed { skill_name: String, message: String },
    /// The host could not prepare the sandbox.
    SandboxPreparation { message: String },
}

} // verus!
