//! The MCP wire protocol as the runtime speaks it: JSON-RPC messages, tool
//! results, transport errors and the fixture transport.
use vstd::prelude::*;
use crate::json::{JsonData, JsonNumber, JsonObject, JsonValue, NumberData, copy_json, entries_data,
    lemma_entries_data, lemma_seq_data, lookup, opt_data, owned_data, seq_data};
use crate::skill::types::SkillMcpServer;
use crate::text::{concat, concat3, decimal, signed_decimal, str_eq, trim, trim_str, u64_decimal,
    i64_decimal, join, join_strings};

verus! {

// ---------------------------------------------------------------------
// Building objects.
// ---------------------------------------------------------------------

pub fn obj1(k1: &str, v1: JsonValue) -> (r: JsonObject)
    ensures
        r.view() == seq![(k1@, v1.data())],
{
    let r = JsonObject { entries: vec![(k1.to_owned(), v1)] };
    proof {
        lemma_entries_data(r.entries@);
        assert(r.view() =~= seq![(k1@, v1.data())]);
    }
    r
}

pub fn obj2(k1: &str, v1: JsonValue, k2: &str, v2: JsonValue) -> (r: JsonObject)
    ensures
        r.view() == seq![(k1@, v1.data()), (k2@, v2.data())],
{
    let r = JsonObject { entries: vec![(k1.to_owned(), v1), (k2.to_owned(), v2)] };
    proof {
        lemma_entries_data(r.entries@);
        assert(r.view() =~= seq![(k1@, v1.data()), (k2@, v2.data())]);
    }
    r
}

pub fn obj3(k1: &str, v1: JsonValue, k2: &str, v2: JsonValue, k3: &str, v3: JsonValue) -> (r: JsonObject)
    ensures
        r.view() == seq![(k1@, v1.data()), (k2@, v2.data()), (k3@, v3.data())],
{
    let r = JsonObject { entries: vec![(k1.to_owned(), v1), (k2.to_owned(), v2), (k3.to_owned(), v3)] };
    proof {
        lemma_entries_data(r.entries@);
        assert(r.view() =~= seq![(k1@, v1.data()), (k2@, v2.data()), (k3@, v3.data())]);
    }
    r
}

pub fn obj4(k1: &str, v1: JsonValue, k2: &str, v2: JsonValue, k3: &str, v3: JsonValue, k4: &str, v4: JsonValue) -> (r: JsonObject)
    ensures
        r.view() == seq![(k1@, v1.data()), (k2@, v2.data()), (k3@, v3.data()), (k4@, v4.data())],
{
    let r = JsonObject {
        entries: vec![(k1.to_owned(), v1), (k2.to_owned(), v2), (k3.to_owned(), v3), (k4.to_owned(), v4)],
    };
    proof {
        lemma_entries_data(r.entries@);
        assert(r.view() =~= seq![(k1@, v1.data()), (k2@, v2.data()), (k3@, v3.data()), (k4@, v4.data())]);
    }
    r
}

pub fn jstr(s: &str) -> (r: JsonValue)
    ensures
        r.data() == JsonData::Str(s@),
{
    JsonValue::String(s.to_owned())
}

pub open spec fn sv(s: Seq<char>) -> JsonData {
    JsonData::Str(s)
}

pub open spec fn empty_obj() -> JsonData {
    JsonData::Object(Seq::empty())
}

pub fn empty_object() -> (r: JsonValue)
    ensures
        r.data() == empty_obj(),
{
    let o = JsonObject::new();
    JsonValue::Object(o)
}

// ---------------------------------------------------------------------
// Tool results.
// ---------------------------------------------------------------------

#[derive(Clone, Debug, PartialEq)]
pub struct McpContent {
    pub text: String,
}

/// What a tool call returns to the client.
#[derive(Clone, Debug, PartialEq)]
pub struct McpToolResult {
    pub content: Vec<McpContent>,
    pub structured_content: Option<JsonObject>,
    pub is_error: bool,
}

/// How a skill run served over MCP ended.
#[derive(Clone, Debug, PartialEq)]
#[allow(inconsistent_fields)]
pub enum McpHostRunResult {
    Completed { skill_name: String, output: String, receipt_id: String, runx: JsonObject },
    NeedsAgent { skill_name: String, run_id: String, request_count: usize, runx: JsonObject },
    Denied { skill_name: String, receipt_id: Option<String>, runx: JsonObject },
    Escalated { skill_name: String, receipt_id: String, error: String, runx: JsonObject },
    Failed { skill_name: String, receipt_id: Option<String>, error: String, runx: JsonObject },
}

pub struct ToolResultView {
    pub texts: Seq<Seq<char>>,
    pub structured_content: Option<Seq<(Seq<char>, JsonData)>>,
    pub is_error: bool,
}

pub open spec fn tool_result_view(r: McpToolResult) -> ToolResultView {
    ToolResultView {
        texts: r.content@.map_values(|c: McpContent| c.text@),
        structured_content: match r.structured_content {
            Some(o) => Some(o.view()),
            None => None,
        },
        is_error: r.is_error,
    }
}

/// A host result: one text entry and the run's `runx` block.
pub open spec fn host_result_view(text: Seq<char>, runx: Seq<(Seq<char>, JsonData)>, is_error: bool) -> ToolResultView {
    ToolResultView {
        texts: seq![text],
        structured_content: Some(seq![("runx"@, JsonData::Object(runx))]),
        is_error,
    }
}

fn mcp_host_tool_result(text: String, runx: JsonObject, is_error: bool) -> (r: McpToolResult)
    ensures
        tool_result_view(r) == host_result_view(text@, runx.view(), is_error),
{
    let ghost rv = runx.view();
    let ghost t = text@;
    let r = McpToolResult {
        content: vec![McpContent { text }],
        structured_content: Some(obj1("runx", JsonValue::Object(runx))),
        is_error,
    };
    proof {
        assert(tool_result_view(r).texts =~= seq![t]);
    }
    r
}

pub open spec fn or_na(o: Option<String>) -> Seq<char> {
    match o {
        Some(s) => s@,
        None => "n/a"@,
    }
}

/// The text a client reads for a host result.
pub open spec fn host_result_text(r: McpHostRunResult) -> Seq<char> {
    match r {
        McpHostRunResult::Completed { skill_name, output, receipt_id, .. } => if trim(output@).len() == 0 {
            skill_name@ + " completed. Inspect receipt "@ + receipt_id@ + "."@
        } else {
            output@
        },
        McpHostRunResult::NeedsAgent { skill_name, run_id, request_count, .. } =>
            skill_name@ + " needs agent input at "@ + run_id@
                + ". Continue by rerunning the same skill with --run-id "@ + run_id@
                + " --answers answers.json after resolving "@ + decimal(request_count as nat) + " request(s)."@,
        McpHostRunResult::Denied { skill_name, receipt_id, .. } => match receipt_id {
            Some(id) => skill_name@ + " was denied by policy (receipt "@ + id@ + ")."@,
            None => skill_name@ + " was denied by policy."@,
        },
        McpHostRunResult::Escalated { skill_name, receipt_id, error, .. } =>
            trim(skill_name@ + " escalated. Inspect receipt "@ + receipt_id@ + ". "@ + error@),
        McpHostRunResult::Failed { skill_name, receipt_id, error, .. } =>
            trim(skill_name@ + " failed. Inspect receipt "@ + or_na(receipt_id) + ". "@ + error@),
    }
}

/// Whether a host result is reported as an error.
pub open spec fn host_result_is_error(r: McpHostRunResult) -> bool {
    r is Denied || r is Escalated || r is Failed
}

pub open spec fn host_result_runx(r: McpHostRunResult) -> Seq<(Seq<char>, JsonData)> {
    match r {
        McpHostRunResult::Completed { runx, .. } => runx.view(),
        McpHostRunResult::NeedsAgent { runx, .. } => runx.view(),
        McpHostRunResult::Denied { runx, .. } => runx.view(),
        McpHostRunResult::Escalated { runx, .. } => runx.view(),
        McpHostRunResult::Failed { runx, .. } => runx.view(),
    }
}

/// The tool result a client receives for a host result: its text, the
/// run's `runx` block as structured content, and whether it is an error
/// (denied, escalated and failed runs are).
pub fn mcp_tool_result_from_host_result(result: McpHostRunResult) -> (r: McpToolResult)
    ensures
        tool_result_view(r) == host_result_view(host_result_text(result), host_result_runx(result), host_result_is_error(result)),
{
    match result {
        McpHostRunResult::Completed { skill_name, output, receipt_id, runx } => {
            let text = if trim_str(output.as_str()).as_str().is_empty() {
                let mut t = concat3(skill_name.as_str(), " completed. Inspect receipt ", receipt_id.as_str());
                t.append(".");
                t
            } else {
                output
            };
            mcp_host_tool_result(text, runx, false)
        },
        McpHostRunResult::NeedsAgent { skill_name, run_id, request_count, runx } => {
            let mut t = concat3(skill_name.as_str(), " needs agent input at ", run_id.as_str());
            t.append(". Continue by rerunning the same skill with --run-id ");
            t.append(run_id.as_str());
            t.append(" --answers answers.json after resolving ");
            t.append(u64_decimal(request_count as u64).as_str());
            t.append(" request(s).");
            mcp_host_tool_result(t, runx, false)
        },
        McpHostRunResult::Denied { skill_name, receipt_id, runx } => {
            let t = match receipt_id {
                Some(id) => {
                    let mut t = concat3(skill_name.as_str(), " was denied by policy (receipt ", id.as_str());
                    t.append(").");
                    t
                },
                None => concat(skill_name.as_str(), " was denied by policy."),
            };
            mcp_host_tool_result(t, runx, true)
        },
        McpHostRunResult::Escalated { skill_name, receipt_id, error, runx } => {
            let mut t = concat3(skill_name.as_str(), " escalated. Inspect receipt ", receipt_id.as_str());
            t.append(". ");
            t.append(error.as_str());
            mcp_host_tool_result(trim_str(t.as_str()), runx, true)
        },
        McpHostRunResult::Failed { skill_name, receipt_id, error, runx } => {
            let id = match receipt_id {
                Some(id) => id,
                None => "n/a".to_owned(),
            };
            let mut t = concat3(skill_name.as_str(), " failed. Inspect receipt ", id.as_str());
            t.append(". ");
            t.append(error.as_str());
            mcp_host_tool_result(trim_str(t.as_str()), runx, true)
        },
    }
}

/// The JSON of a tool result: its text content entries, its structured
/// content when present, and `isError` when it is an error.
pub open spec fn tool_result_json(v: ToolResultView) -> JsonData {
    let content = ("content"@, JsonData::Array(v.texts.map_values(|t: Seq<char>| JsonData::Object(seq![("text"@, sv(t)), ("type"@, sv("text"@))]))));
    let with_error = if v.is_error {
        seq![content, ("isError"@, JsonData::Bool(true))]
    } else {
        seq![content]
    };
    JsonData::Object(match v.structured_content {
        Some(s) => with_error.push(("structuredContent"@, JsonData::Object(s))),
        None => with_error,
    })
}

pub fn mcp_tool_result_json(result: &McpToolResult) -> (r: JsonValue)
    ensures
        r.data() == tool_result_json(tool_result_view(*result)),
{
    let ghost texts = result.content@.map_values(|c: McpContent| c.text@);
    let mut items: Vec<JsonValue> = Vec::new();
    let mut i: usize = 0;
    while i < result.content.len()
        invariant
            i <= result.content@.len(),
            texts == result.content@.map_values(|c: McpContent| c.text@),
            items@.len() == i,
            forall|j: int| 0 <= j < i ==> #[trigger] items@[j].data() == JsonData::Object(seq![("text"@, sv(texts[j])), ("type"@, sv("text"@))]),
        decreases result.content@.len() - i,
    {
        let entry = obj2("text", JsonValue::String(result.content[i].text.clone()), "type", jstr("text"));
        items.push(JsonValue::Object(entry));
        i += 1;
    }
    proof {
        lemma_seq_data(items@);
        assert(seq_data(items@) =~= texts.map_values(|t: Seq<char>| JsonData::Object(seq![("text"@, sv(t)), ("type"@, sv("text"@))])));
    }
    let mut entries: Vec<(String, JsonValue)> = Vec::new();
    entries.push(("content".to_owned(), JsonValue::Array(items)));
    if result.is_error {
        entries.push(("isError".to_owned(), JsonValue::Bool(true)));
    }
    match &result.structured_content {
        Some(s) => entries.push(("structuredContent".to_owned(), JsonValue::Object(s.copy()))),
        None => {},
    }
    let record = JsonObject { entries };
    proof {
        lemma_entries_data(record.entries@);
        assert(record.view() =~= tool_result_json(tool_result_view(*result))->Object_0);
    }
    JsonValue::Object(record)
}

// ---------------------------------------------------------------------
// JSON-RPC messages.
// ---------------------------------------------------------------------

/// The MCP protocol version the runtime speaks.
pub const PROTOCOL_VERSION: &'static str = "2025-06-18";

pub open spec fn rpc_response(id: JsonData, result: JsonData) -> JsonData {
    JsonData::Object(seq![("id"@, id), ("jsonrpc"@, sv("2.0"@)), ("result"@, result)])
}

pub fn json_rpc_response(id: JsonValue, result: JsonValue) -> (r: JsonValue)
    ensures
        r.data() == rpc_response(id.data(), result.data()),
{
    JsonValue::Object(obj3("id", id, "jsonrpc", jstr("2.0"), "result", result))
}

pub open spec fn rpc_error(id: JsonData, code: i64, message: Seq<char>) -> JsonData {
    JsonData::Object(seq![
        ("error"@, JsonData::Object(seq![("code"@, JsonData::Number(NumberData::I64(code))), ("message"@, sv(message))])),
        ("id"@, id),
        ("jsonrpc"@, sv("2.0"@)),
    ])
}

pub fn json_rpc_error(id: JsonValue, code: i64, message: &str) -> (r: JsonValue)
    ensures
        r.data() == rpc_error(id.data(), code, message@),
{
    let error = obj2("code", JsonValue::Number(JsonNumber::I64(code)), "message", jstr(message));
    JsonValue::Object(obj3("error", JsonValue::Object(error), "id", id, "jsonrpc", jstr("2.0")))
}

pub open spec fn rpc_request(id: i64, method: Seq<char>, params: Seq<(Seq<char>, JsonData)>) -> JsonData {
    JsonData::Object(seq![
        ("id"@, JsonData::Number(NumberData::I64(id))),
        ("jsonrpc"@, sv("2.0"@)),
        ("method"@, sv(method)),
        ("params"@, JsonData::Object(params)),
    ])
}

pub fn json_rpc_request(id: i64, method: &str, params: JsonObject) -> (r: JsonValue)
    ensures
        r.data() == rpc_request(id, method@, params.view()),
{
    JsonValue::Object(obj4(
        "id",
        JsonValue::Number(JsonNumber::I64(id)),
        "jsonrpc",
        jstr("2.0"),
        "method",
        jstr(method),
        "params",
        JsonValue::Object(params),
    ))
}

pub fn initialize_request(id: i64) -> (r: JsonValue)
    ensures
        r.data() == rpc_request(id, "initialize"@, seq![
            ("capabilities"@, empty_obj()),
            ("clientInfo"@, JsonData::Object(seq![("name"@, sv("runx"@)), ("version"@, sv("0.0.0"@))])),
            ("protocolVersion"@, sv(PROTOCOL_VERSION@)),
        ]),
{
    let client = obj2("name", jstr("runx"), "version", jstr("0.0.0"));
    let params = obj3(
        "capabilities",
        empty_object(),
        "clientInfo",
        JsonValue::Object(client),
        "protocolVersion",
        jstr(PROTOCOL_VERSION),
    );
    json_rpc_request(id, "initialize", params)
}

pub fn initialized_notification() -> (r: JsonValue)
    ensures
        r.data() == JsonData::Object(seq![
            ("jsonrpc"@, sv("2.0"@)),
            ("method"@, sv("notifications/initialized"@)),
            ("params"@, empty_obj()),
        ]),
{
    JsonValue::Object(obj3("jsonrpc", jstr("2.0"), "method", jstr("notifications/initialized"), "params", empty_object()))
}

pub fn tool_call_request(id: i64, tool: &str, arguments: &JsonObject) -> (r: JsonValue)
    ensures
        r.data() == rpc_request(id, "tools/call"@, seq![("arguments"@, JsonData::Object(arguments.view())), ("name"@, sv(tool@))]),
{
    let params = obj2("arguments", JsonValue::Object(arguments.copy()), "name", jstr(tool));
    json_rpc_request(id, "tools/call", params)
}

pub fn tools_list_request(id: i64) -> (r: JsonValue)
    ensures
        r.data() == rpc_request(id, "tools/list"@, Seq::empty()),
{
    json_rpc_request(id, "tools/list", JsonObject::new())
}

/// A tool result whose only content is `text`.
pub open spec fn text_content_data(text: Seq<char>) -> JsonData {
    JsonData::Object(seq![("content"@, JsonData::Array(seq![JsonData::Object(seq![("text"@, sv(text)), ("type"@, sv("text"@))])]))])
}

pub fn text_content(text: String) -> (r: JsonValue)
    ensures
        r.data() == text_content_data(text@),
{
    let entry = obj2("text", JsonValue::String(text), "type", jstr("text"));
    let items: Vec<JsonValue> = vec![JsonValue::Object(entry)];
    proof {
        lemma_seq_data(items@);
    }
    let r = JsonValue::Object(obj1("content", JsonValue::Array(items)));
    proof {
        assert(seq_data(items@) =~= seq![items@[0].data()]);
    }
    r
}

// ---------------------------------------------------------------------
// Responses.
// ---------------------------------------------------------------------

/// An integer id as JSON holds it, when it fits `i64`.
pub open spec fn as_i64(d: Option<JsonData>) -> Option<i64> {
    match d {
        Some(JsonData::Number(NumberData::I64(v))) => Some(v),
        Some(JsonData::Number(NumberData::U64(v))) => if v <= i64::MAX {
            Some(v as i64)
        } else {
            None
        },
        _ => None,
    }
}

fn as_i64_exec(v: Option<&JsonValue>) -> (r: Option<i64>)
    ensures
        r == as_i64(opt_data(v)),
{
    match v {
        Some(JsonValue::Number(JsonNumber::I64(x))) => Some(*x),
        Some(JsonValue::Number(JsonNumber::U64(x))) => {
            if *x <= 9223372036854775807u64 {
                Some(*x as i64)
            } else {
                None
            }
        },
        _ => None,
    }
}

/// The id of a response message.
pub fn response_id(message: &JsonValue) -> (r: Option<i64>)
    ensures
        r == match message.data() {
            JsonData::Object(o) => as_i64(lookup(o, "id"@)),
            _ => None,
        },
{
    match message {
        JsonValue::Object(record) => as_i64_exec(record.get("id")),
        _ => None,
    }
}

/// The code of an error object; `0` when it has none that fits `i64`.
pub fn error_code(error: &JsonObject) -> (r: i64)
    ensures
        r == match as_i64(lookup(error.view(), "code"@)) {
            Some(c) => c,
            None => 0,
        },
{
    match as_i64_exec(error.get("code")) {
        Some(c) => c,
        None => 0,
    }
}

#[derive(Clone, Copy, Debug, PartialEq, Eq, Structural)]
pub enum McpTransportErrorKind {
    ToolError(i64),
    Timeout,
    Failed,
}

/// A failed MCP call. Its message is for logs; clients read the sanitized
/// message.
#[derive(Clone, Debug, PartialEq)]
pub struct McpTransportError {
    pub kind: McpTransportErrorKind,
    pub message: String,
}

impl McpTransportError {
    pub fn failed(message: String) -> (r: Self)
        ensures
            r.kind == McpTransportErrorKind::Failed,
            r.message@ == message@,
    {
        McpTransportError { kind: McpTransportErrorKind::Failed, message }
    }

    pub fn tool_error(code: i64, message: String) -> (r: Self)
        ensures
            r.kind == McpTransportErrorKind::ToolError(code),
            r.message@ == message@,
    {
        McpTransportError { kind: McpTransportErrorKind::ToolError(code), message }
    }

    /// A call that ran past `timeout_ms` milliseconds.
    pub fn timeout(timeout_ms: u64) -> (r: Self)
        ensures
            r.kind == McpTransportErrorKind::Timeout,
            r.message@ == "MCP call timed out after "@ + decimal(timeout_ms as nat) + "ms."@,
    {
        let mut m = concat("MCP call timed out after ", u64_decimal(timeout_ms).as_str());
        m.append("ms.");
        McpTransportError { kind: McpTransportErrorKind::Timeout, message: m }
    }

    /// The message a client may see: a tool error's code, a timeout's
    /// message, or a generic failure; never a tool's or server's own text.
    pub fn sanitized_message(&self) -> (r: String)
        ensures
            r@ == sanitized(*self),
    {
        match self.kind {
            McpTransportErrorKind::ToolError(code) => {
                let mut m = concat("MCP tool returned error ", i64_decimal(code).as_str());
                m.append(".");
                m
            },
            McpTransportErrorKind::Timeout => self.message.clone(),
            McpTransportErrorKind::Failed => "MCP adapter failed.".to_owned(),
        }
    }
}

pub open spec fn sanitized(e: McpTransportError) -> Seq<char> {
    match e.kind {
        McpTransportErrorKind::ToolError(code) => "MCP tool returned error "@ + signed_decimal(code as int) + "."@,
        McpTransportErrorKind::Timeout => e.message@,
        McpTransportErrorKind::Failed => "MCP adapter failed."@,
    }
}

/// What a client sees of a tool error or a failure does not depend on the
/// message the tool or server sent.
pub proof fn law_sanitized_message_hides_server_text(a: McpTransportError, b: McpTransportError)
    requires
        a.kind == b.kind,
        !(a.kind is Timeout),
    ensures
        sanitized(a) == sanitized(b),
{
}

pub open spec fn result_spec(message: JsonData) -> Result<JsonData, (McpTransportErrorKind, Seq<char>)> {
    match message {
        JsonData::Object(o) => match lookup(o, "error"@) {
            Some(JsonData::Object(e)) => Err((
                McpTransportErrorKind::ToolError(match as_i64(lookup(e, "code"@)) {
                    Some(c) => c,
                    None => 0,
                }),
                "MCP server returned error."@,
            )),
            _ => Ok(match lookup(o, "result"@) {
                Some(r) => r,
                None => JsonData::Null,
            }),
        },
        _ => Err((McpTransportErrorKind::Failed, "MCP server response was invalid."@)),
    }
}

/// The result of a response message, or the error it reports.
pub fn response_result(message: &JsonValue) -> (r: Result<JsonValue, McpTransportError>)
    ensures
        match result_spec(message.data()) {
            Ok(d) => r matches Ok(v) && v.data() == d,
            Err((k, m)) => r matches Err(e) && e.kind == k && e.message@ == m,
        },
{
    let record = match message {
        JsonValue::Object(o) => o,
        _ => return Err(McpTransportError::failed("MCP server response was invalid.".to_owned())),
    };
    match record.get("error") {
        Some(JsonValue::Object(e)) => {
            return Err(McpTransportError::tool_error(error_code(e), "MCP server returned error.".to_owned()));
        },
        _ => {},
    }
    match record.get("result") {
        Some(v) => Ok(copy_json(v)),
        None => Ok(JsonValue::Null),
    }
}

/// A tool an MCP server lists.
#[derive(Clone, Debug, PartialEq)]
pub struct McpToolDescriptor {
    pub name: String,
    pub description: Option<String>,
    pub input_schema: Option<JsonObject>,
}

pub struct DescriptorView {
    pub name: Seq<char>,
    pub description: Option<Seq<char>>,
    pub input_schema: Option<Seq<(Seq<char>, JsonData)>>,
}

pub open spec fn descriptor_view(d: McpToolDescriptor) -> DescriptorView {
    DescriptorView {
        name: d.name@,
        description: crate::reference::opt_str(d.description),
        input_schema: match d.input_schema {
            Some(o) => Some(o.view()),
            None => None,
        },
    }
}

/// The descriptor an entry of a tools list describes, if it names a tool.
pub open spec fn descriptor_of(entry: JsonData) -> Option<DescriptorView> {
    match entry {
        JsonData::Object(tool) => match lookup(tool, "name"@) {
            Some(JsonData::Str(name)) => if trim(name).len() == 0 {
                None
            } else {
                Some(DescriptorView {
                    name,
                    description: match lookup(tool, "description"@) {
                        Some(JsonData::Str(d)) => Some(d),
                        _ => None,
                    },
                    input_schema: match (match lookup(tool, "inputSchema"@) {
                        Some(s) => Some(s),
                        None => lookup(tool, "input_schema"@),
                    }) {
                        Some(JsonData::Object(s)) => Some(s),
                        _ => None,
                    },
                })
            },
            _ => None,
        },
        _ => None,
    }
}

/// The descriptors of the entries that name tools, in order.
pub open spec fn descriptors(entries: Seq<JsonData>) -> Seq<DescriptorView>
    decreases entries.len(),
{
    if entries.len() == 0 {
        Seq::empty()
    } else {
        let head = descriptors(entries.drop_last());
        match descriptor_of(entries.last()) {
            Some(d) => head.push(d),
            None => head,
        }
    }
}

pub open spec fn tools_list_spec(result: JsonData) -> Seq<DescriptorView> {
    match result {
        JsonData::Object(o) => match lookup(o, "tools"@) {
            Some(JsonData::Array(items)) => descriptors(items),
            _ => Seq::empty(),
        },
        _ => Seq::empty(),
    }
}

fn descriptor_from(entry: &JsonValue) -> (r: Option<McpToolDescriptor>)
    ensures
        match descriptor_of(entry.data()) {
            Some(d) => r matches Some(x) && descriptor_view(x) == d,
            None => r is None,
        },
{
    let tool = match entry {
        JsonValue::Object(t) => t,
        _ => return None,
    };
    let name = match tool.get("name") {
        Some(JsonValue::String(n)) => n,
        _ => return None,
    };
    if crate::text::is_blank(name.as_str()) {
        return None;
    }
    let description = match tool.get("description") {
        Some(JsonValue::String(d)) => Some(d.clone()),
        _ => None,
    };
    let schema_value = match tool.get("inputSchema") {
        Some(s) => Some(s),
        None => tool.get("input_schema"),
    };
    let input_schema = match schema_value {
        Some(JsonValue::Object(s)) => Some(s.copy()),
        _ => None,
    };
    Some(McpToolDescriptor { name: name.clone(), description, input_schema })
}

/// The tools a `tools/list` result describes: every entry that is an
/// object with a non-blank name, in order.
pub fn parse_mcp_tools_list(result: &JsonValue) -> (r: Vec<McpToolDescriptor>)
    ensures
        r@.map_values(|d: McpToolDescriptor| descriptor_view(d)) == tools_list_spec(result.data()),
{
    let record = match result {
        JsonValue::Object(o) => o,
        _ => {
            let v: Vec<McpToolDescriptor> = Vec::new();
            proof {
                assert(v@.map_values(|d: McpToolDescriptor| descriptor_view(d)) =~= Seq::<DescriptorView>::empty());
            }
            return v;
        },
    };
    let tools = match record.get("tools") {
        Some(JsonValue::Array(t)) => t,
        _ => {
            let v: Vec<McpToolDescriptor> = Vec::new();
            proof {
                assert(v@.map_values(|d: McpToolDescriptor| descriptor_view(d)) =~= Seq::<DescriptorView>::empty());
            }
            return v;
        },
    };
    proof {
        lemma_seq_data(tools@);
    }
    let ghost d = seq_data(tools@);
    let mut out: Vec<McpToolDescriptor> = Vec::new();
    let mut i: usize = 0;
    proof {
        assert(d.take(0) =~= Seq::<JsonData>::empty());
        assert(out@.map_values(|x: McpToolDescriptor| descriptor_view(x)) =~= Seq::<DescriptorView>::empty());
    }
    while i < tools.len()
        invariant
            i <= tools@.len(),
            d == seq_data(tools@),
            d.len() == tools@.len(),
            forall|j: int| 0 <= j < tools@.len() ==> #[trigger] d[j] == tools@[j].data(),
            out@.map_values(|x: McpToolDescriptor| descriptor_view(x)) == descriptors(d.take(i as int)),
        decreases tools@.len() - i,
    {
        proof {
            assert(d.take(i + 1).drop_last() =~= d.take(i as int));
            assert(d.take(i + 1).last() == tools@[i as int].data());
        }
        let ghost before = out@;
        match descriptor_from(&tools[i]) {
            Some(x) => {
                out.push(x);
                proof {
                    assert(out@.map_values(|x: McpToolDescriptor| descriptor_view(x)) =~= before.map_values(
                        |x: McpToolDescriptor| descriptor_view(x),
                    ).push(descriptor_view(out@.last())));
                }
            },
            None => {},
        }
        i += 1;
    }
    proof {
        assert(d.take(tools@.len() as int) =~= d);
    }
    out
}

// ---------------------------------------------------------------------
// Display text of values, as a JavaScript host renders them.
// ---------------------------------------------------------------------

pub open spec fn number_display(n: NumberData) -> Seq<char> {
    match n {
        NumberData::I64(v) => signed_decimal(v as int),
        NumberData::U64(v) => decimal(v as nat),
        NumberData::F64(_, display, _) => display,
    }
}

/// How a value reads as text: nothing for `null`, a string as itself,
/// booleans and numbers as displayed, arrays as their items' texts joined
/// by commas, objects as `[object Object]`.
pub open spec fn display_text(d: JsonData) -> Seq<char>
    decreases d,
{
    match d {
        JsonData::Null => Seq::empty(),
        JsonData::Str(s) => s,
        JsonData::Bool(b) => if b {
            "true"@
        } else {
            "false"@
        },
        JsonData::Number(n) => number_display(n),
        JsonData::Array(items) => display_items(items),
        JsonData::Object(_) => "[object Object]"@,
    }
}

pub open spec fn display_items(items: Seq<JsonData>) -> Seq<char>
    decreases items,
{
    if items.len() == 0 {
        Seq::empty()
    } else {
        let head = if items.len() == 1 {
            Seq::empty()
        } else {
            display_items(items.drop_last()) + ","@
        };
        head + display_text(items.last())
    }
}

pub open spec fn js_text(v: Option<JsonData>) -> Seq<char> {
    match v {
        None => Seq::empty(),
        Some(d) => display_text(d),
    }
}

pub fn json_number_string(n: &JsonNumber) -> (r: String)
    ensures
        r@ == number_display(n.data()),
{
    match n {
        JsonNumber::I64(v) => i64_decimal(*v),
        JsonNumber::U64(v) => u64_decimal(*v),
        JsonNumber::F64(f) => f.display.clone(),
    }
}

#[verifier::loop_isolation(false)]
fn display_value(v: &JsonValue) -> (r: String)
    ensures
        r@ == display_text(v.data()),
    decreases v,
{
    match v {
        JsonValue::Null => String::new(),
        JsonValue::String(s) => s.clone(),
        JsonValue::Bool(b) => if *b {
            "true".to_owned()
        } else {
            "false".to_owned()
        },
        JsonValue::Number(n) => json_number_string(n),
        JsonValue::Object(_) => "[object Object]".to_owned(),
        JsonValue::Array(items) => {
            proof {
                lemma_seq_data(items@);
            }
            let ghost d = seq_data(items@);
            let mut out = String::new();
            let mut i: usize = 0;
            proof {
                assert(d.take(0) =~= Seq::<JsonData>::empty());
            }
            while i < items.len()
                invariant
                    i <= items.len(),
                    d == seq_data(items@),
                    out@ == display_items(d.take(i as int)),
                decreases items.len() - i,
            {
                proof {
                    assert(*items == (*v)->Array_0);
                    assert(decreases_to!(*v => (*v)->Array_0));
                    assert(decreases_to!(*items => items@));
                    assert(decreases_to!(items@ => items@[i as int]));
                    assert(d.take(i + 1).drop_last() =~= d.take(i as int));
                    assert(d.take(i + 1).last() == items@[i as int].data());
                }
                if i > 0 {
                    out.append(",");
                }
                let t = display_value(&items[i]);
                out.append(t.as_str());
                i += 1;
            }
            proof {
                assert(d.take(items@.len() as int) =~= d);
            }
            out
        },
    }
}

/// How an optional value reads as text.
pub fn js_string(value: Option<&JsonValue>) -> (r: String)
    ensures
        r@ == js_text(opt_data(value)),
{
    match value {
        None => String::new(),
        Some(v) => display_value(v),
    }
}

// ---------------------------------------------------------------------
// Timeouts and the fixture transport.
// ---------------------------------------------------------------------

/// The call timeout used when a source declares none.
pub const DEFAULT_TIMEOUT_MS: u64 = 60000;

/// The shortest call timeout.
pub const MIN_TIMEOUT_MS: u64 = 50;

pub open spec fn timeout_ms_spec(timeout_seconds: Option<u64>) -> u64 {
    let ms: u64 = match timeout_seconds {
        Some(s) => if s * 1000 > u64::MAX {
            u64::MAX
        } else {
            (s * 1000) as u64
        },
        None => DEFAULT_TIMEOUT_MS,
    };
    if ms < MIN_TIMEOUT_MS {
        MIN_TIMEOUT_MS
    } else {
        ms
    }
}

/// The call timeout of a source in milliseconds: its seconds (saturating),
/// the default when none, and never below the minimum.
pub fn timeout_from_source(timeout_seconds: Option<u64>) -> (r: u64)
    ensures
        r == timeout_ms_spec(timeout_seconds),
{
    let ms = match timeout_seconds {
        Some(s) => match s.checked_mul(1000) {
            Some(m) => m,
            None => u64::MAX,
        },
        None => DEFAULT_TIMEOUT_MS,
    };
    if ms < MIN_TIMEOUT_MS {
        MIN_TIMEOUT_MS
    } else {
        ms
    }
}

/// The process a sandboxed MCP server runs as.
#[derive(Clone, Debug, PartialEq)]
pub struct SandboxPlan {
    pub command: String,
    pub args: Vec<String>,
    pub cwd: String,
    pub env: Vec<(String, String)>,
}

/// One tool call.
#[derive(Clone, Debug, PartialEq)]
pub struct McpToolCallRequest {
    pub server: SkillMcpServer,
    pub tool: String,
    pub arguments: JsonObject,
    pub timeout_ms: u64,
    pub sandbox: SandboxPlan,
}

/// A request to list a server's tools.
#[derive(Clone, Debug, PartialEq)]
pub struct McpListToolsRequest {
    pub server: SkillMcpServer,
    pub timeout_ms: u64,
    pub sandbox: SandboxPlan,
}

/// Something that performs MCP tool calls.
pub trait McpTransport {
    /// Whether `result` is an answer this transport gives to `request`.
    /// A transport that says nothing more leaves every answer possible.
    open spec fn answers(&self, request: McpToolCallRequest, result: Result<JsonValue, McpTransportError>) -> bool {
        true
    }

    fn call_tool(&self, request: McpToolCallRequest) -> (r: Result<JsonValue, McpTransportError>)
        ensures
            self.answers(request, r),
    ;
}

/// What the fixture transport answers to `request`.
pub open spec fn fixture_answer(request: McpToolCallRequest, r: Result<JsonValue, McpTransportError>) -> bool {
    match fixture_call(request.tool@, request.arguments.view(), request.timeout_ms, request.sandbox.env@) {
        Ok(d) => r matches Ok(v) && v.data() == d,
        Err((k, m)) => r matches Err(e) && e.kind == k && e.message@ == m,
    }
}

/// The value of `name` in an environment; empty when unset.
pub open spec fn env_lookup(env: Seq<(String, String)>, name: Seq<char>) -> Seq<char>
    decreases env.len(),
{
    if env.len() == 0 {
        Seq::empty()
    } else if env[0].0@ == name {
        env[0].1@
    } else {
        env_lookup(env.drop_first(), name)
    }
}

pub fn env_value(env: &Vec<(String, String)>, name: Option<&JsonValue>) -> (r: String)
    ensures
        r@ == env_lookup(env@, js_text(opt_data(name))),
{
    let key = js_string(name);
    let mut i: usize = 0;
    proof {
        assert(env@.skip(0) =~= env@);
    }
    while i < env.len()
        invariant
            i <= env@.len(),
            key@ == js_text(opt_data(name)),
            env_lookup(env@, key@) == env_lookup(env@.skip(i as int), key@),
        decreases env@.len() - i,
    {
        proof {
            assert(env@.skip(i as int).drop_first() =~= env@.skip(i + 1));
            assert(env@.skip(i as int)[0] == env@[i as int]);
        }
        if str_eq(env[i].0.as_str(), key.as_str()) {
            let v = env[i].1.clone();
            proof {
                assert(env@.skip(i as int).len() > 0);
                assert(env@.skip(i as int)[0].0@ == key@);
                assert(env_lookup(env@.skip(i as int), key@) == env@[i as int].1@);
            }
            return v;
        }
        i += 1;
    }
    String::new()
}

/// The fixture transport: `echo` returns its message, `env` reads the
/// sandbox environment, `fail`, `sleep` and `malformed-json` fail as a
/// tool error, a timeout and a protocol failure, and any other tool is
/// not found.
#[derive(Clone, Copy, Debug)]
pub struct FixtureMcpTransport;

impl FixtureMcpTransport {
    pub fn new() -> (r: Self) {
        FixtureMcpTransport
    }
}

pub open spec fn fixture_call(tool: Seq<char>, args: Seq<(Seq<char>, JsonData)>, timeout_ms: u64, env: Seq<(String, String)>) -> Result<JsonData, (McpTransportErrorKind, Seq<char>)> {
    if tool == "echo"@ {
        Ok(text_content_data(js_text(lookup(args, "message"@))))
    } else if tool == "env"@ {
        Ok(text_content_data(env_lookup(env, js_text(lookup(args, "name"@)))))
    } else if tool == "fail"@ {
        Err((McpTransportErrorKind::ToolError(-32000i64), "fixture failure: "@ + js_text(lookup(args, "message"@))))
    } else if tool == "sleep"@ {
        Err((McpTransportErrorKind::Timeout, "MCP call timed out after "@ + decimal(timeout_ms as nat) + "ms."@))
    } else if tool == "malformed-json"@ {
        Err((McpTransportErrorKind::Failed, "MCP server sent invalid JSON."@))
    } else {
        Err((McpTransportErrorKind::ToolError(-32601i64), "tool not found"@))
    }
}

impl FixtureMcpTransport {
    /// Performs a fixture tool call.
    pub fn call(&self, request: &McpToolCallRequest) -> (r: Result<JsonValue, McpTransportError>)
        ensures
            fixture_answer(*request, r),
    {
        let tool = request.tool.as_str();
        if str_eq(tool, "echo") {
            Ok(text_content(js_string(request.arguments.get("message"))))
        } else if str_eq(tool, "env") {
            Ok(text_content(env_value(&request.sandbox.env, request.arguments.get("name"))))
        } else if str_eq(tool, "fail") {
            Err(McpTransportError::tool_error(-32000, concat("fixture failure: ", js_string(request.arguments.get("message")).as_str())))
        } else if str_eq(tool, "sleep") {
            Err(McpTransportError::timeout(request.timeout_ms))
        } else if str_eq(tool, "malformed-json") {
            Err(McpTransportError::failed("MCP server sent invalid JSON.".to_owned()))
        } else {
            Err(McpTransportError::tool_error(-32601, "tool not found".to_owned()))
        }
    }
}

impl McpTransport for FixtureMcpTransport {
    open spec fn answers(&self, request: McpToolCallRequest, result: Result<JsonValue, McpTransportError>) -> bool {
        fixture_answer(request, result)
    }

    fn call_tool(&self, request: McpToolCallRequest) -> (r: Result<JsonValue, McpTransportError>) {
        self.call(&request)
    }
}


/// A client is told a run failed exactly when it did not go through: for
/// every host result, the tool result a client receives is an error
/// exactly when the run was denied, escalated or failed, and not an error
/// when it completed or waits on the caller.
pub proof fn law_refused_runs_are_errors(result: McpHostRunResult, r: McpToolResult)
    requires
        tool_result_view(r) == host_result_view(host_result_text(result), host_result_runx(result), host_result_is_error(result)),
    ensures
        r.is_error <==> (result is Denied || result is Escalated || result is Failed),
        (result is Completed || result is NeedsAgent) ==> !r.is_error,
        r.content@.len() == 1,
        r.structured_content matches Some(o) && o.view() == seq![("runx"@, JsonData::Object(host_result_runx(result)))],
        result matches McpHostRunResult::Completed { output, .. } ==> (trim(output@).len() > 0
            ==> r.content@[0].text@ == output@),
        result matches McpHostRunResult::Denied { skill_name, receipt_id: Some(id), .. }
            ==> r.content@[0].text@ == skill_name@ + " was denied by policy (receipt "@ + id@ + ")."@,
{
    assert(tool_result_view(r).texts.len() == 1);
    assert(tool_result_view(r).texts[0] == r.content@[0].text@);
}

} // verus!
