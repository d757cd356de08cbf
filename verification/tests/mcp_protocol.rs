use runx::json::{JsonNumber, JsonObject, JsonValue};
use runx::json_text::render_json;
use runx::mcp::protocol::{
    FixtureMcpTransport, McpContent, McpHostRunResult, McpToolCallRequest, McpToolResult,
    McpTransportError, McpTransportErrorKind, SandboxPlan, error_code, initialize_request,
    js_string, json_rpc_error, mcp_tool_result_from_host_result, mcp_tool_result_json,
    parse_mcp_tools_list, response_id, response_result, timeout_from_source, tool_call_request,
};
use runx::mcp::template::{
    exact_template_key, map_mcp_arguments, map_template_string, render_template,
    valid_template_key,
};
use runx::skill::types::SkillMcpServer;

fn obj(entries: Vec<(&str, JsonValue)>) -> JsonObject {
    JsonObject {
        entries: entries.into_iter().map(|(k, v)| (k.to_owned(), v)).collect(),
    }
}

fn s(v: &str) -> JsonValue {
    JsonValue::String(v.to_owned())
}

fn n(v: u64) -> JsonValue {
    JsonValue::Number(JsonNumber::U64(v))
}

#[test]
fn template_keys() {
    assert!(valid_template_key("user.name-1_x"));
    assert!(!valid_template_key(""));
    assert!(!valid_template_key("a b"));
    assert_eq!(exact_template_key("  {{ topic }} "), Some("topic".to_owned()));
    assert_eq!(exact_template_key("{{a}} and {{b}}"), None);
    assert_eq!(exact_template_key("{{ bad key }}"), None);
}

#[test]
fn exact_templates_keep_the_value() {
    let inputs = obj(vec![("count", n(3)), ("topic", s("cats"))]);
    let resolved = obj(vec![("topic", s("dogs"))]);
    assert_eq!(map_template_string("{{count}}", &inputs, &resolved), n(3));
    assert_eq!(map_template_string("{{ topic }}", &inputs, &resolved), s("dogs"));
    assert_eq!(map_template_string("{{missing}}", &inputs, &resolved), JsonValue::Null);
}

#[test]
fn mixed_templates_render_text() {
    let inputs = obj(vec![("count", n(3)), ("list", JsonValue::Array(vec![n(1), s("a")]))]);
    let resolved = JsonObject::new();
    assert_eq!(
        render_template("n={{count}}, l={{ list }}, x={{missing}}, bad={{a b}}, open={{x", &inputs, &resolved),
        "n=3, l=[1,\"a\"], x=, bad={{a b}}, open={{x"
    );
}

#[test]
fn arguments_without_a_template_merge_inputs() {
    let inputs = obj(vec![("a", s("1")), ("b", s("2"))]);
    let resolved = obj(vec![("b", s("3"))]);
    let merged = map_mcp_arguments(None, &inputs, &resolved);
    assert_eq!(render_json(&JsonValue::Object(merged)), "{\"a\":\"1\",\"b\":\"3\"}");
    let template = obj(vec![("q", s("{{a}}-{{b}}")), ("limit", n(5))]);
    let mapped = map_mcp_arguments(Some(&template), &inputs, &resolved);
    assert_eq!(render_json(&JsonValue::Object(mapped)), "{\"limit\":5,\"q\":\"1-3\"}");
}

#[test]
fn host_results_become_tool_results() {
    let completed = mcp_tool_result_from_host_result(McpHostRunResult::Completed {
        skill_name: "echo".to_owned(),
        output: "  ".to_owned(),
        receipt_id: "rx_1".to_owned(),
        runx: JsonObject::new(),
    });
    assert_eq!(completed.content[0].text, "echo completed. Inspect receipt rx_1.");
    assert!(!completed.is_error);
    let failed = mcp_tool_result_from_host_result(McpHostRunResult::Failed {
        skill_name: "echo".to_owned(),
        receipt_id: None,
        error: "boom ".to_owned(),
        runx: JsonObject::new(),
    });
    assert_eq!(failed.content[0].text, "echo failed. Inspect receipt n/a. boom");
    assert!(failed.is_error);
    let needs = mcp_tool_result_from_host_result(McpHostRunResult::NeedsAgent {
        skill_name: "echo".to_owned(),
        run_id: "run_9".to_owned(),
        request_count: 2,
        runx: JsonObject::new(),
    });
    assert_eq!(
        needs.content[0].text,
        "echo needs agent input at run_9. Continue by rerunning the same skill with --run-id run_9 --answers answers.json after resolving 2 request(s)."
    );
}

#[test]
fn tool_result_json_shape() {
    let result = McpToolResult {
        content: vec![McpContent { text: "hi".to_owned() }],
        structured_content: Some(obj(vec![("runx", JsonValue::Object(JsonObject::new()))])),
        is_error: true,
    };
    assert_eq!(
        render_json(&mcp_tool_result_json(&result)),
        "{\"content\":[{\"text\":\"hi\",\"type\":\"text\"}],\"isError\":true,\"structuredContent\":{\"runx\":{}}}"
    );
}

#[test]
fn json_rpc_messages() {
    assert_eq!(
        render_json(&json_rpc_error(n(7), -32601, "method not found")),
        "{\"error\":{\"code\":-32601,\"message\":\"method not found\"},\"id\":7,\"jsonrpc\":\"2.0\"}"
    );
    let request = tool_call_request(3, "echo", &obj(vec![("message", s("hi"))]));
    assert_eq!(
        render_json(&request),
        "{\"id\":3,\"jsonrpc\":\"2.0\",\"method\":\"tools/call\",\"params\":{\"arguments\":{\"message\":\"hi\"},\"name\":\"echo\"}}"
    );
    assert!(render_json(&initialize_request(1)).contains("\"protocolVersion\":\"2025-06-18\""));
}

#[test]
fn responses_are_matched_by_id_and_read() {
    let message = JsonValue::Object(obj(vec![("id", n(4)), ("result", s("ok"))]));
    assert_eq!(response_id(&message), Some(4));
    assert_eq!(response_result(&message), Ok(s("ok")));
    let error = JsonValue::Object(obj(vec![
        ("id", n(4)),
        ("error", JsonValue::Object(obj(vec![("code", JsonValue::Number(JsonNumber::I64(-32000)))]))),
    ]));
    let failure = response_result(&error).unwrap_err();
    assert_eq!(failure.kind, McpTransportErrorKind::ToolError(-32000));
    assert_eq!(failure.sanitized_message(), "MCP tool returned error -32000.");
    assert_eq!(error_code(&JsonObject::new()), 0);
    assert_eq!(response_id(&s("x")), None);
}

#[test]
fn sanitized_messages_hide_server_text() {
    let a = McpTransportError::failed("secret server text".to_owned());
    let b = McpTransportError::failed("other".to_owned());
    assert_eq!(a.sanitized_message(), b.sanitized_message());
    assert_eq!(a.sanitized_message(), "MCP adapter failed.");
    assert_eq!(
        McpTransportError::timeout(250).sanitized_message(),
        "MCP call timed out after 250ms."
    );
}

#[test]
fn tools_list_keeps_named_entries() {
    let result = JsonValue::Object(obj(vec![(
        "tools",
        JsonValue::Array(vec![
            JsonValue::Object(obj(vec![("name", s("echo")), ("description", s("Echo."))])),
            JsonValue::Object(obj(vec![("name", s("  "))])),
            s("not a tool"),
        ]),
    )]));
    let tools = parse_mcp_tools_list(&result);
    assert_eq!(tools.len(), 1);
    assert_eq!(tools[0].name, "echo");
    assert_eq!(tools[0].description.as_deref(), Some("Echo."));
}

#[test]
fn js_strings_and_timeouts() {
    assert_eq!(js_string(None), "");
    assert_eq!(js_string(Some(&JsonValue::Bool(true))), "true");
    assert_eq!(js_string(Some(&JsonValue::Array(vec![n(1), s("b"), JsonValue::Null]))), "1,b,");
    assert_eq!(js_string(Some(&JsonValue::Object(JsonObject::new()))), "[object Object]");
    assert_eq!(timeout_from_source(None), 60_000);
    assert_eq!(timeout_from_source(Some(0)), 50);
    assert_eq!(timeout_from_source(Some(2)), 2_000);
    assert_eq!(timeout_from_source(Some(u64::MAX)), u64::MAX);
}

fn request(tool: &str, arguments: JsonObject) -> McpToolCallRequest {
    McpToolCallRequest {
        server: SkillMcpServer {
            command: "fixture".to_owned(),
            args: Vec::new(),
            cwd: None,
        },
        tool: tool.to_owned(),
        arguments,
        timeout_ms: 100,
        sandbox: SandboxPlan {
            command: "fixture".to_owned(),
            args: Vec::new(),
            cwd: "/tmp".to_owned(),
            env: vec![("HOME".to_owned(), "/home/runx".to_owned())],
        },
    }
}

#[test]
fn fixture_transport_answers() {
    let transport = FixtureMcpTransport::new();
    let echoed = transport.call(&request("echo", obj(vec![("message", s("hi"))]))).unwrap();
    assert_eq!(
        render_json(&echoed),
        "{\"content\":[{\"text\":\"hi\",\"type\":\"text\"}]}"
    );
    let env = transport.call(&request("env", obj(vec![("name", s("HOME"))]))).unwrap();
    assert!(render_json(&env).contains("/home/runx"));
    let error = transport.call(&request("sleep", JsonObject::new())).unwrap_err();
    assert_eq!(error.kind, McpTransportErrorKind::Timeout);
    assert_eq!(error.message, "MCP call timed out after 100ms.");
    let error = transport.call(&request("nope", JsonObject::new())).unwrap_err();
    assert_eq!(error.kind, McpTransportErrorKind::ToolError(-32601));
}
