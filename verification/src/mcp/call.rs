//! One MCP tool call for a skill source: what is checked and handed to the
//! transport before the call, and the skill output made of its answer.
use vstd::prelude::*;
use crate::adapter::{InvocationStatus, RuntimeError, SkillInvocation, SkillOutput};
use crate::json::{JsonData, JsonObject, JsonValue, lemma_seq_data, lookup, overlay, seq_data};
use crate::json_text::{json_text, render_json};
use crate::mcp::protocol::{McpToolCallRequest, McpTransport, McpTransportError, SandboxPlan, sanitized,
    timeout_from_source, timeout_ms_spec};
use crate::mcp::sandbox::{McpSandboxMetadataConfig, config_fits, mcp_process_sandbox_metadata, metadata_data,
    metadata_for, process_sandbox_data};
use crate::mcp::template::{map_mcp_arguments, mapped_entries};
use crate::reference::opt_str;
use crate::registry::{env_find, env_get};
use crate::skill::types::{SkillMcpServer, SkillSource, SourceKind, source_kind_name};
use crate::text::{concat, join, join_strings, str_eq};

verus! {

pub const MISSING_MCP_METADATA: &'static str = "MCP source requires server and tool metadata.";

// ---------------------------------------------------------------------
// Tool results as text.
// ---------------------------------------------------------------------

/// How one content entry of a tool result reads: a `text` entry as its
/// text, anything else as its JSON text.
pub open spec fn content_entry_text(entry: JsonData) -> Seq<char> {
    match entry {
        JsonData::Object(es) => {
            if lookup(es, "type"@) == Some(JsonData::Str("text"@)) {
                match lookup(es, "text"@) {
                    Some(JsonData::Str(t)) => t,
                    _ => json_text(entry),
                }
            } else {
                json_text(entry)
            }
        },
        _ => json_text(entry),
    }
}

pub fn stringify_content_entry(entry: &JsonValue) -> (r: String)
    ensures
        r@ == content_entry_text(entry.data()),
{
    if let JsonValue::Object(record) = entry {
        let is_text = match record.get("type") {
            Some(JsonValue::String(t)) => str_eq(t.as_str(), "text"),
            _ => false,
        };
        if is_text {
            if let Some(JsonValue::String(text)) = record.get("text") {
                return text.clone();
            }
        }
    }
    render_json(entry)
}

/// How a tool result reads: the texts of its `content` entries, one per
/// line, where it has a `content` array; a string as itself; anything else
/// as its JSON text.
pub open spec fn tool_result_text(result: JsonData) -> Seq<char> {
    match result {
        JsonData::Object(es) => match lookup(es, "content"@) {
            Some(JsonData::Array(items)) => join(items.map_values(|e: JsonData| content_entry_text(e)), "\n"@),
            _ => json_text(result),
        },
        JsonData::Str(s) => s,
        _ => json_text(result),
    }
}

pub fn stringify_mcp_tool_result(result: &JsonValue) -> (r: String)
    ensures
        r@ == tool_result_text(result.data()),
{
    if let JsonValue::Object(record) = result {
        if let Some(JsonValue::Array(content)) = record.get("content") {
            proof {
                lemma_seq_data(content@);
            }
            let ghost items = seq_data(content@);
            let mut texts: Vec<String> = Vec::new();
            let mut i: usize = 0;
            while i < content.len()
                invariant
                    i <= content@.len(),
                    items == seq_data(content@),
                    items.len() == content@.len(),
                    forall|j: int| 0 <= j < content@.len() ==> #[trigger] items[j] == content@[j].data(),
                    texts@.len() == i,
                    forall|j: int| 0 <= j < i ==> #[trigger] texts@[j]@ == content_entry_text(items[j]),
                decreases content@.len() - i,
            {
                texts.push(stringify_content_entry(&content[i]));
                i += 1;
            }
            let r = join_strings(&texts, "\n");
            proof {
                assert(texts@.map_values(|p: String| p@) =~= items.map_values(|e: JsonData| content_entry_text(e)));
            }
            return r;
        }
    }
    match result {
        JsonValue::String(s) => s.clone(),
        _ => render_json(result),
    }
}

// ---------------------------------------------------------------------
// Preparing the call.
// ---------------------------------------------------------------------

/// What the host's sandbox preparation gave for the server process.
#[derive(Debug)]
pub enum McpSandboxPreparation {
    /// The process to run.
    Ready(SandboxPlan),
    /// The sandbox policy refuses the server; the record of the declared
    /// sandbox goes with the refusal.
    Denied { message: String, sandbox_metadata: JsonObject },
    /// Preparation failed for another reason.
    Failed { message: String },
}

/// A call ready for the transport, with the metadata a success and a
/// failure record.
#[derive(Debug)]
pub struct PreparedMcpToolCall {
    pub request: McpToolCallRequest,
    pub success_metadata: JsonObject,
    pub failure_metadata: JsonObject,
}

/// The server and the non-empty tool name of a source, where it names both.
pub open spec fn mcp_target(source: SkillSource) -> Option<(SkillMcpServer, Seq<char>)> {
    match (source.server, source.tool) {
        (Some(server), Some(tool)) => if tool@.len() > 0 {
            Some((server, tool@))
        } else {
            None
        },
        _ => None,
    }
}

/// The arguments a source's call carries.
pub open spec fn call_arguments(source: SkillSource, inputs: JsonObject, resolved: JsonObject) -> Seq<(Seq<char>, JsonData)> {
    match source.arguments {
        None => overlay(inputs.view(), resolved.view()),
        Some(t) => mapped_entries(t.view(), inputs.view(), resolved.view()),
    }
}

/// `o` is a failed run with the given message, duration and metadata.
pub open spec fn is_failure(o: SkillOutput, message: Seq<char>, elapsed_ms: u64, metadata: Seq<(Seq<char>, JsonData)>) -> bool {
    &&& o.status == InvocationStatus::Failure
    &&& o.stdout@ == Seq::<char>::empty()
    &&& o.stderr@ == message
    &&& o.exit_code is None
    &&& o.duration_ms == elapsed_ms
    &&& o.metadata.view() == metadata
}

/// The metadata of a source's call with the given sandbox record.
pub open spec fn source_metadata(source: SkillSource, sandbox: Option<Seq<(Seq<char>, JsonData)>>) -> Seq<(Seq<char>, JsonData)> {
    metadata_data(opt_str(source.tool), source.server, sandbox)
}

/// What preparing a call of `source` gives, for each outcome of the
/// sandbox preparation; `elapsed_ms` is the time a failure reports.
pub open spec fn prepared_as(
    r: Result<Result<PreparedMcpToolCall, SkillOutput>, RuntimeError>,
    invocation: SkillInvocation,
    sandbox: McpSandboxPreparation,
    workspace_root: Seq<char>,
    elapsed_ms: u64,
) -> bool {
    let source = invocation.source;
    let inputs = invocation.inputs;
    let resolved = invocation.resolved_inputs;
    &&& source.source_type != SourceKind::Mcp ==> (r matches Err(RuntimeError::UnsupportedAdapter { adapter_type })
        && adapter_type@ == source_kind_name(source.source_type))
    &&& source.source_type == SourceKind::Mcp && mcp_target(source) is None ==> (r matches Ok(Err(o))
        && is_failure(o, MISSING_MCP_METADATA@, elapsed_ms, Seq::empty()))
    &&& source.source_type == SourceKind::Mcp && mcp_target(source) is Some ==> match sandbox {
        McpSandboxPreparation::Denied { message, sandbox_metadata } => r matches Ok(Err(o))
            && is_failure(o, "MCP sandbox denied: "@ + message@, elapsed_ms,
                source_metadata(source, Some(sandbox_metadata.view()))),
        McpSandboxPreparation::Failed { message } => r matches Err(RuntimeError::SandboxPreparation { message: m })
            && m@ == message@,
        McpSandboxPreparation::Ready(plan) => r matches Ok(Ok(p))
            && mcp_target(source) == Some((p.request.server, p.request.tool@))
            && p.request.arguments.view() == call_arguments(source, inputs, resolved)
            && p.request.timeout_ms == timeout_ms_spec(source.timeout_seconds)
            && p.request.sandbox == plan
            && p.failure_metadata.view() == source_metadata(source, None)
            && exists|c: McpSandboxMetadataConfig| config_fits(c, source.sandbox)
                && #[trigger] p.success_metadata.view() == source_metadata(source,
                    Some(process_sandbox_data(c, plan.cwd@, workspace_root))),
    }
}

/// A failed run.
pub fn failure(message: String, elapsed_ms: u64, metadata: JsonObject) -> (o: SkillOutput)
    ensures
        is_failure(o, message@, elapsed_ms, metadata.view()),
{
    SkillOutput {
        status: InvocationStatus::Failure,
        stdout: String::new(),
        stderr: message,
        exit_code: None,
        duration_ms: elapsed_ms,
        metadata,
    }
}

/// The run a source without a server or a tool name ends in.
pub fn missing_mcp_metadata(elapsed_ms: u64) -> (o: SkillOutput)
    ensures
        is_failure(o, MISSING_MCP_METADATA@, elapsed_ms, Seq::empty()),
{
    let o = failure(MISSING_MCP_METADATA.to_owned(), elapsed_ms, JsonObject::new());
    proof {
        assert(o.metadata.view() =~= Seq::<(Seq<char>, JsonData)>::empty());
    }
    o
}

/// Prepares the MCP call of `source`: the source must be an MCP source
/// naming a server and a tool; the arguments are mapped from the inputs;
/// the sandbox preparation decides whether the server may run, and where.
pub fn prepare_mcp_tool_call(
    invocation: SkillInvocation,
    sandbox: McpSandboxPreparation,
    workspace_root: &str,
    elapsed_ms: u64,
) -> (r: Result<Result<PreparedMcpToolCall, SkillOutput>, RuntimeError>)
    requires
        invocation.inputs.wf(),
    ensures
        prepared_as(r, invocation, sandbox, workspace_root@, elapsed_ms),
{
    let SkillInvocation { source, inputs, resolved_inputs, .. } = invocation;
    match source.source_type {
        SourceKind::Mcp => {},
        other => {
            return Err(RuntimeError::UnsupportedAdapter { adapter_type: other.as_str().to_owned() });
        },
    }
    let has_server = source.server.is_some();
    let has_tool = match &source.tool {
        Some(t) => t.as_str().unicode_len() > 0,
        None => false,
    };
    if !has_server || !has_tool {
        return Ok(Err(missing_mcp_metadata(elapsed_ms)));
    }
    let arguments = map_mcp_arguments(source.arguments.as_ref(), &inputs, &resolved_inputs);
    match sandbox {
        McpSandboxPreparation::Denied { message, sandbox_metadata } => {
            let metadata = metadata_for(&source.tool, source.server.as_ref(), Some(sandbox_metadata));
            let text = concat("MCP sandbox denied: ", message.as_str());
            Ok(Err(failure(text, elapsed_ms, metadata)))
        },
        McpSandboxPreparation::Failed { message } => Err(RuntimeError::SandboxPreparation { message }),
        McpSandboxPreparation::Ready(plan) => {
            let sandbox_record = mcp_process_sandbox_metadata(source.sandbox.as_ref(), plan.cwd.as_str(), workspace_root);
            let success_metadata = metadata_for(&source.tool, source.server.as_ref(), Some(sandbox_record));
            let failure_metadata = metadata_for(&source.tool, source.server.as_ref(), None);
            let timeout_ms = timeout_from_source(source.timeout_seconds);
            let server = source.server.unwrap();
            let tool = source.tool.unwrap();
            let request = McpToolCallRequest { server, tool, arguments, timeout_ms, sandbox: plan };
            Ok(Ok(PreparedMcpToolCall { request, success_metadata, failure_metadata }))
        },
    }
}

// ---------------------------------------------------------------------
// Finishing the call.
// ---------------------------------------------------------------------

/// `o` is what a call gives for the transport's `result` after
/// `elapsed_ms`: on success the tool result's text and the success
/// metadata; on failure the sanitized message and the failure metadata.
pub open spec fn is_call_output(
    o: SkillOutput,
    success_metadata: Seq<(Seq<char>, JsonData)>,
    failure_metadata: Seq<(Seq<char>, JsonData)>,
    result: Result<JsonValue, McpTransportError>,
    elapsed_ms: u64,
) -> bool {
    match result {
        Ok(v) => {
            &&& o.status == InvocationStatus::Success
            &&& o.stdout@ == tool_result_text(v.data())
            &&& o.stderr@ == Seq::<char>::empty()
            &&& o.exit_code == Some(0i32)
            &&& o.duration_ms == elapsed_ms
            &&& o.metadata.view() == success_metadata
        },
        Err(e) => is_failure(o, sanitized(e), elapsed_ms, failure_metadata),
    }
}

/// The skill output of a call from what the transport returned.
pub fn mcp_call_output(
    success_metadata: JsonObject,
    failure_metadata: JsonObject,
    result: Result<JsonValue, McpTransportError>,
    elapsed_ms: u64,
) -> (o: SkillOutput)
    ensures
        is_call_output(o, success_metadata.view(), failure_metadata.view(), result, elapsed_ms),
{
    match result {
        Ok(value) => SkillOutput {
            status: InvocationStatus::Success,
            stdout: stringify_mcp_tool_result(&value),
            stderr: String::new(),
            exit_code: Some(0),
            duration_ms: elapsed_ms,
            metadata: success_metadata,
        },
        Err(error) => failure(error.sanitized_message(), elapsed_ms, failure_metadata),
    }
}

/// The workspace root a run names, as the environment gives it:
/// `RUNX_CWD`, else `INIT_CWD`; `None` when neither is set, where the
/// current directory stands in.
pub fn workspace_root_choice(env: &Vec<(String, String)>) -> (r: Option<String>)
    ensures
        opt_str(r) == (match env_find(env@, "RUNX_CWD"@) {
            Some(v) => Some(v),
            None => env_find(env@, "INIT_CWD"@),
        }),
{
    proof {
        reveal_strlit("RUNX_CWD");
        reveal_strlit("INIT_CWD");
    }
    match env_get(env, "RUNX_CWD") {
        Some(v) => Some(v),
        None => env_get(env, "INIT_CWD"),
    }
}

/// How long a run has taken so far, in milliseconds.
pub trait RunClock {
    fn elapsed_ms(&self) -> u64;
}

/// Runs MCP sources through a transport.
pub struct McpAdapter<T> {
    transport: T,
}

impl<T: McpTransport> McpAdapter<T> {
    /// The transport the adapter calls.
    pub closed spec fn held_transport(&self) -> T {
        self.transport
    }

    pub fn new(transport: T) -> (r: Self)
        ensures
            r.held_transport() == transport,
    {
        McpAdapter { transport }
    }

    pub fn adapter_type(&self) -> (r: &'static str)
        ensures
            r@ == "mcp"@,
    {
        proof {
            reveal_strlit("mcp");
        }
        "mcp"
    }

    /// Runs `source` as an MCP tool call: a source that cannot be called
    /// ends as `prepare_mcp_tool_call` says; otherwise the prepared request
    /// goes to the transport and the run ends with what it returned.
    pub fn invoke<C: RunClock>(
        &self,
        request: SkillInvocation,
        sandbox: McpSandboxPreparation,
        workspace_root: &str,
        clock: &C,
    ) -> (r: Result<SkillOutput, RuntimeError>)
        requires
            request.inputs.wf(),
        ensures
            match r {
                Err(e) => exists|ms: u64| #[trigger] prepared_as(Err(e), request,
                    sandbox, workspace_root@, ms),
                Ok(o) => (exists|ms: u64| #[trigger] prepared_as(Ok(Err(o)), request,
                    sandbox, workspace_root@, ms))
                    || (exists|p: PreparedMcpToolCall, ms: u64, result: Result<JsonValue, McpTransportError>, ms2: u64|
                        #![trigger prepared_as(Ok(Ok(p)), request, sandbox, workspace_root@, ms),
                            is_call_output(o, p.success_metadata.view(), p.failure_metadata.view(), result, ms2)]
                        prepared_as(Ok(Ok(p)), request, sandbox, workspace_root@, ms)
                        && self.held_transport().answers(p.request, result)
                        && is_call_output(o, p.success_metadata.view(), p.failure_metadata.view(), result, ms2)),
            },
    {
        let started = clock.elapsed_ms();
        let prepared = prepare_mcp_tool_call(request, sandbox, workspace_root, started);
        match prepared {
            Err(e) => {
                assert(prepared_as(Err(e), request, sandbox, workspace_root@, started));
                Err(e)
            },
            Ok(Err(o)) => {
                assert(prepared_as(Ok(Err(o)), request, sandbox, workspace_root@, started));
                Ok(o)
            },
            Ok(Ok(call)) => {
                let ghost p = call;
                let PreparedMcpToolCall { request: call_request, success_metadata, failure_metadata } = call;
                let result = self.transport.call_tool(call_request);
                let ghost res = result;
                let elapsed = clock.elapsed_ms();
                let o = mcp_call_output(success_metadata, failure_metadata, result, elapsed);
                assert(prepared_as(Ok(Ok(p)), request, sandbox, workspace_root@, started));
                assert(is_call_output(o, p.success_metadata.view(), p.failure_metadata.view(), res, elapsed));
                Ok(o)
            },
        }
    }
}

} // verus!
