//! Serving skills as MCP tools: the tool list, the dispatch of one
//! request, and the input handling of a served skill.
use vstd::prelude::*;
use crate::json::{JsonData, JsonNumber, JsonObject, JsonValue, copy_json, entries_data,
    lemma_entries_data, lemma_seq_data, lookup, opt_data, owned_data, seq_data, spec_insert};
use crate::mcp::protocol::{
    McpToolResult, empty_obj, empty_object, jstr, json_rpc_error, json_rpc_response,
    mcp_tool_result_json, obj1, obj2, obj3, rpc_error, rpc_response, sv, tool_result_json,
    tool_result_view, PROTOCOL_VERSION,
};
use crate::skill::types::{InputView, SkillInput, ValidatedSkill};
use crate::skill::validate::inputs_view;
use crate::text::{concat, concat3, is_ascii_alnum, is_ascii_alnum_exec, str_eq, string_from_chars,
    trim_by, trim_chars, u64_decimal, decimal, chars_of, in_set, join, join_strings};

verus! {

/// A failure of the MCP server loop.
#[derive(Clone, Debug, PartialEq)]
pub struct McpServerError {
    pub message: String,
}

impl McpServerError {
    pub fn new(message: String) -> (r: Self)
        ensures
            r.message@ == message@,
    {
        McpServerError { message }
    }
}

/// A skill served as a tool.
#[derive(Clone, Debug, PartialEq)]
pub struct McpServerSkillExecution {
    pub skill_path: String,
    pub skill: ValidatedSkill,
    pub receipt_dir: Option<String>,
    pub env: Vec<(String, String)>,
}

/// What a served tool does when called.
#[derive(Clone, Debug, PartialEq)]
pub enum McpServerToolBehavior {
    Fixed(McpToolResult),
    NotImplemented(String),
    Skill(Box<McpServerSkillExecution>),
}

#[derive(Clone, Debug, PartialEq)]
pub struct McpServerTool {
    pub name: String,
    pub description: String,
    pub input_schema: JsonObject,
    pub result: McpServerToolBehavior,
}

/// What the server serves.
#[derive(Clone, Debug, PartialEq)]
pub struct McpServerOptions {
    pub package_name: String,
    pub package_version: String,
    pub tools: Vec<McpServerTool>,
}

/// How served skills run.
#[derive(Clone, Debug, PartialEq)]
pub struct McpServerExecutionOptions {
    pub runner: Option<String>,
    pub receipt_dir: Option<String>,
    pub env: Vec<(String, String)>,
}

// ---------------------------------------------------------------------
// Tool names.
// ---------------------------------------------------------------------

/// The index of the first name that an earlier name repeats.
pub open spec fn first_duplicate(names: Seq<Seq<char>>) -> Option<int>
    decreases names.len(),
{
    if names.len() == 0 {
        None
    } else {
        match first_duplicate(names.drop_last()) {
            Some(j) => Some(j),
            None => if exists|i: int| 0 <= i < names.len() - 1 && #[trigger] names[i] == names.last() {
                Some(names.len() - 1)
            } else {
                None
            },
        }
    }
}

proof fn lemma_first_duplicate_prefix(names: Seq<Seq<char>>, k: int)
    requires
        0 <= k <= names.len(),
        first_duplicate(names.take(k)) is Some,
    ensures
        first_duplicate(names) == first_duplicate(names.take(k)),
    decreases names.len() - k,
{
    if k < names.len() {
        assert(names.take(k + 1).drop_last() =~= names.take(k));
        lemma_first_duplicate_prefix(names, k + 1);
    } else {
        assert(names.take(k) =~= names);
    }
}

pub open spec fn tool_names(tools: Seq<McpServerTool>) -> Seq<Seq<char>> {
    tools.map_values(|t: McpServerTool| t.name@)
}

/// Refuses a tool list in which two tools share a name, naming the first
/// repeated name.
pub fn assert_unique_server_tool_names(tools: &Vec<McpServerTool>) -> (r: Result<(), McpServerError>)
    ensures
        match first_duplicate(tool_names(tools@)) {
            None => r is Ok,
            Some(j) => r matches Err(e) && 0 <= j < tools@.len() && e.message@ == "runx mcp serve received duplicate tool name '"@
                + tool_names(tools@)[j] + "'. Serve unique skill names only."@,
        },
{
    let ghost names = tool_names(tools@);
    let mut j: usize = 0;
    proof {
        assert(names.take(0) =~= Seq::<Seq<char>>::empty());
    }
    while j < tools.len()
        invariant
            j <= tools@.len(),
            names == tool_names(tools@),
            names.len() == tools@.len(),
            first_duplicate(names.take(j as int)) is None,
        decreases tools@.len() - j,
    {
        proof {
            assert(names.take(j + 1).drop_last() =~= names.take(j as int));
            assert(names.take(j + 1).last() == names[j as int]);
        }
        let mut i: usize = 0;
        while i < j
            invariant
                i <= j < tools@.len(),
                names == tool_names(tools@),
                names.len() == tools@.len(),
                first_duplicate(names.take(j as int)) is None,
                forall|x: int| 0 <= x < i ==> names[x] != names[j as int],
            decreases j - i,
        {
            if str_eq(tools[i].name.as_str(), tools[j].name.as_str()) {
                proof {
                    assert(names.take(j + 1).drop_last() =~= names.take(j as int));
                    assert(names.take(j + 1)[i as int] == names.take(j + 1).last());
                    assert(first_duplicate(names.take(j + 1)) == Some(j as int));
                    lemma_first_duplicate_prefix(names, j + 1);
                }
                let m = concat3("runx mcp serve received duplicate tool name '", tools[j].name.as_str(), "'. Serve unique skill names only.");
                return Err(McpServerError::new(m));
            }
            i += 1;
        }
        proof {
            assert forall|x: int| 0 <= x < names.take(j + 1).len() - 1 implies #[trigger] names.take(j + 1)[x] != names.take(j + 1).last() by {
                assert(names.take(j + 1)[x] == names[x]);
            }
        }
        j += 1;
    }
    proof {
        assert(names.take(names.len() as int) =~= names);
    }
    Ok(())
}

/// A served tool list that `assert_unique_server_tool_names` accepts has
/// pairwise distinct names.
pub proof fn law_unique_names_after_check(names: Seq<Seq<char>>)
    requires
        first_duplicate(names) is None,
    ensures
        forall|i: int, j: int| 0 <= i < j < names.len() ==> names[i] != names[j],
    decreases names.len(),
{
    if names.len() > 0 {
        law_unique_names_after_check(names.drop_last());
        assert forall|i: int, j: int| 0 <= i < j < names.len() implies names[i] != names[j] by {
            if j < names.len() - 1 {
                assert(names.drop_last()[i] == names[i] && names.drop_last()[j] == names[j]);
            } else {
                if names[i] == names[j] {
                    assert(names[i] == names.last());
                }
            }
        }
    }
}

// ---------------------------------------------------------------------
// Server messages.
// ---------------------------------------------------------------------

pub open spec fn server_tool_data(t: McpServerTool) -> JsonData {
    JsonData::Object(seq![
        ("description"@, sv(t.description@)),
        ("inputSchema"@, JsonData::Object(t.input_schema.view())),
        ("name"@, sv(t.name@)),
    ])
}

pub fn server_tool_json(tool: &McpServerTool) -> (r: JsonValue)
    ensures
        r.data() == server_tool_data(*tool),
{
    JsonValue::Object(obj3(
        "description",
        JsonValue::String(tool.description.clone()),
        "inputSchema",
        JsonValue::Object(tool.input_schema.copy()),
        "name",
        JsonValue::String(tool.name.clone()),
    ))
}

pub open spec fn tools_list_data(tools: Seq<McpServerTool>) -> JsonData {
    JsonData::Object(seq![("tools"@, JsonData::Array(tools.map_values(|t: McpServerTool| server_tool_data(t))))])
}

pub fn tools_list_result(tools: &Vec<McpServerTool>) -> (r: JsonValue)
    ensures
        r.data() == tools_list_data(tools@),
{
    let mut items: Vec<JsonValue> = Vec::new();
    let mut i: usize = 0;
    while i < tools.len()
        invariant
            i <= tools@.len(),
            items@.len() == i,
            forall|j: int| 0 <= j < i ==> #[trigger] items@[j].data() == server_tool_data(tools@[j]),
        decreases tools@.len() - i,
    {
        items.push(server_tool_json(&tools[i]));
        i += 1;
    }
    proof {
        lemma_seq_data(items@);
        assert(seq_data(items@) =~= tools@.map_values(|t: McpServerTool| server_tool_data(t)));
    }
    JsonValue::Object(obj1("tools", JsonValue::Array(items)))
}

pub open spec fn initialize_result_data(name: Seq<char>, version: Seq<char>) -> JsonData {
    JsonData::Object(seq![
        ("capabilities"@, JsonData::Object(seq![("tools"@, empty_obj())])),
        ("protocolVersion"@, sv(PROTOCOL_VERSION@)),
        ("serverInfo"@, JsonData::Object(seq![("name"@, sv(name)), ("version"@, sv(version))])),
    ])
}

pub fn initialize_server_result(options: &McpServerOptions) -> (r: JsonValue)
    ensures
        r.data() == initialize_result_data(options.package_name@, options.package_version@),
{
    let caps = obj1("tools", empty_object());
    let info = obj2("name", JsonValue::String(options.package_name.clone()), "version", JsonValue::String(options.package_version.clone()));
    JsonValue::Object(obj3(
        "capabilities",
        JsonValue::Object(caps),
        "protocolVersion",
        jstr(PROTOCOL_VERSION),
        "serverInfo",
        JsonValue::Object(info),
    ))
}

/// What the server does with one request: answer it, stay silent (a
/// notification), or run a served skill and answer with its result.
#[derive(Clone, Debug, PartialEq)]
pub enum McpServerStep {
    Respond(JsonValue),
    Silent,
    ExecuteSkill { id: JsonValue, tool_index: usize, arguments: JsonObject },
}

pub enum StepView {
    Respond(JsonData),
    Silent,
    ExecuteSkill(JsonData, int, Seq<(Seq<char>, JsonData)>),
}

pub open spec fn step_view(s: McpServerStep) -> StepView {
    match s {
        McpServerStep::Respond(v) => StepView::Respond(v.data()),
        McpServerStep::Silent => StepView::Silent,
        McpServerStep::ExecuteSkill { id, tool_index, arguments } => StepView::ExecuteSkill(id.data(), tool_index as int, arguments.view()),
    }
}

/// The index of the first tool named `name`.
pub open spec fn tool_index(tools: Seq<McpServerTool>, name: Seq<char>) -> Option<int> {
    if exists|i: int| 0 <= i < tools.len() && #[trigger] tools[i].name@ == name {
        Some(choose|i: int| 0 <= i < tools.len() && #[trigger] tools[i].name@ == name && forall|j: int| 0 <= j < i ==> #[trigger] tools[j].name@ != name)
    } else {
        None
    }
}

fn find_tool(tools: &Vec<McpServerTool>, name: &str) -> (r: Option<usize>)
    ensures
        r matches Some(i) ==> i < tools@.len() && tool_index(tools@, name@) == Some(i as int),
        r is None <==> tool_index(tools@, name@) is None,
{
    let mut i: usize = 0;
    while i < tools.len()
        invariant
            i <= tools@.len(),
            forall|j: int| 0 <= j < i ==> #[trigger] tools@[j].name@ != name@,
        decreases tools@.len() - i,
    {
        if str_eq(tools[i].name.as_str(), name) {
            proof {
                let c = choose|c: int| 0 <= c < tools@.len() && #[trigger] tools@[c].name@ == name@ && forall|j: int| 0 <= j < c ==> #[trigger] tools@[j].name@ != name@;
                if c < i {
                    assert(tools@[c].name@ != name@);
                } else if c > i {
                    assert(tools@[i as int].name@ != name@);
                }
            }
            return Some(i);
        }
        i += 1;
    }
    None
}

/// The answer to a `tools/call` request.
pub open spec fn tool_call_spec(tools: Seq<McpServerTool>, id: JsonData, params: Option<JsonData>) -> StepView {
    match params {
        Some(JsonData::Object(p)) => match lookup(p, "name"@) {
            Some(JsonData::Str(name)) => if lookup(p, "arguments"@) is Some && !(lookup(p, "arguments"@)->0 is Object) {
                StepView::Respond(rpc_error(id, -32602i64, "tool arguments must be an object"@))
            } else {
                match tool_index(tools, name) {
                    None => StepView::Respond(rpc_error(id, -32601i64, "tool not found: "@ + name)),
                    Some(i) => match tools[i].result {
                        McpServerToolBehavior::Fixed(result) => StepView::Respond(rpc_response(id, tool_result_json(tool_result_view(result)))),
                        McpServerToolBehavior::NotImplemented(m) => StepView::Respond(rpc_error(id, -32000i64, m@)),
                        McpServerToolBehavior::Skill(_) => StepView::ExecuteSkill(id, i, match lookup(p, "arguments"@) {
                            Some(JsonData::Object(a)) => a,
                            _ => Seq::empty(),
                        }),
                    },
                }
            },
            _ => StepView::Respond(rpc_error(id, -32602i64, "invalid tool call"@)),
        },
        _ => StepView::Respond(rpc_error(id, -32602i64, "invalid tool call"@)),
    }
}

fn handle_tool_call(options: &McpServerOptions, id: JsonValue, params: Option<&JsonValue>) -> (r: McpServerStep)
    ensures
        step_view(r) == tool_call_spec(options.tools@, id.data(), opt_data(params)),
{
    let p = match params {
        Some(JsonValue::Object(p)) => p,
        _ => return McpServerStep::Respond(json_rpc_error(id, -32602i64, "invalid tool call")),
    };
    let name = match p.get("name") {
        Some(JsonValue::String(n)) => n,
        _ => return McpServerStep::Respond(json_rpc_error(id, -32602i64, "invalid tool call")),
    };
    match p.get("arguments") {
        Some(JsonValue::Object(_)) => {},
        None => {},
        Some(_) => return McpServerStep::Respond(json_rpc_error(id, -32602i64, "tool arguments must be an object")),
    }
    let i = match find_tool(&options.tools, name.as_str()) {
        None => {
            let m = concat("tool not found: ", name.as_str());
            return McpServerStep::Respond(json_rpc_error(id, -32601i64, m.as_str()));
        },
        Some(i) => i,
    };
    match &options.tools[i].result {
        McpServerToolBehavior::Fixed(result) => McpServerStep::Respond(json_rpc_response(id, mcp_tool_result_json(result))),
        McpServerToolBehavior::NotImplemented(m) => McpServerStep::Respond(json_rpc_error(id, -32000i64, m.as_str())),
        McpServerToolBehavior::Skill(_) => {
            let arguments = match p.get("arguments") {
                Some(JsonValue::Object(a)) => a.copy(),
                _ => JsonObject::new(),
            };
            McpServerStep::ExecuteSkill { id, tool_index: i, arguments }
        },
    }
}

/// The answer to one request.
pub open spec fn request_spec(tools: Seq<McpServerTool>, name: Seq<char>, version: Seq<char>, request: JsonData) -> StepView {
    match request {
        JsonData::Object(record) => {
            let id = match lookup(record, "id"@) {
                Some(v) => v,
                None => JsonData::Null,
            };
            match lookup(record, "method"@) {
                Some(JsonData::Str(method)) => if method == "initialize"@ {
                    StepView::Respond(rpc_response(id, initialize_result_data(name, version)))
                } else if method == "ping"@ {
                    StepView::Respond(rpc_response(id, empty_obj()))
                } else if method == "tools/list"@ {
                    StepView::Respond(rpc_response(id, tools_list_data(tools)))
                } else if method == "tools/call"@ {
                    tool_call_spec(tools, id, lookup(record, "params"@))
                } else if id == JsonData::Null {
                    StepView::Silent
                } else {
                    StepView::Respond(rpc_error(id, -32601i64, "method not found"@))
                },
                _ => StepView::Respond(rpc_error(id, -32600i64, "invalid request"@)),
            }
        },
        _ => StepView::Respond(rpc_error(JsonData::Null, -32600i64, "invalid request"@)),
    }
}

/// Decides the answer to one request: initialization, ping, the tool
/// list, a tool call; an unknown notification is ignored and an unknown
/// request answered `method not found`.
pub fn handle_mcp_server_request(options: &McpServerOptions, request: &JsonValue) -> (r: McpServerStep)
    ensures
        step_view(r) == request_spec(options.tools@, options.package_name@, options.package_version@, request.data()),
{
    let record = match request {
        JsonValue::Object(o) => o,
        _ => return McpServerStep::Respond(json_rpc_error(JsonValue::Null, -32600i64, "invalid request")),
    };
    let id = match record.get("id") {
        Some(v) => copy_json(v),
        None => JsonValue::Null,
    };
    let method = match record.get("method") {
        Some(JsonValue::String(m)) => m.as_str(),
        _ => return McpServerStep::Respond(json_rpc_error(id, -32600i64, "invalid request")),
    };
    if str_eq(method, "initialize") {
        McpServerStep::Respond(json_rpc_response(id, initialize_server_result(options)))
    } else if str_eq(method, "ping") {
        McpServerStep::Respond(json_rpc_response(id, empty_object()))
    } else if str_eq(method, "tools/list") {
        McpServerStep::Respond(json_rpc_response(id, tools_list_result(&options.tools)))
    } else if str_eq(method, "tools/call") {
        handle_tool_call(options, id, record.get("params"))
    } else {
        match id {
            JsonValue::Null => McpServerStep::Silent,
            _ => McpServerStep::Respond(json_rpc_error(id, -32601i64, "method not found")),
        }
    }
}

} // verus!
