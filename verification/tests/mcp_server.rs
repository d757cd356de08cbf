use runx::json::{JsonNumber, JsonObject, JsonValue};
use runx::json_text::render_json;
use runx::mcp::protocol::{McpContent, McpToolResult};
use runx::mcp::server::{
    McpServerOptions, McpServerStep, McpServerTool, McpServerToolBehavior,
    assert_unique_server_tool_names, handle_mcp_server_request,
};

fn obj(entries: Vec<(&str, JsonValue)>) -> JsonObject {
    JsonObject {
        entries: entries.into_iter().map(|(k, v)| (k.to_owned(), v)).collect(),
    }
}

fn s(v: &str) -> JsonValue {
    JsonValue::String(v.to_owned())
}

fn id(v: i64) -> JsonValue {
    JsonValue::Number(JsonNumber::I64(v))
}

fn tool(name: &str, result: McpServerToolBehavior) -> McpServerTool {
    McpServerTool {
        name: name.to_owned(),
        description: format!("{name} tool"),
        input_schema: obj(vec![("type", s("object"))]),
        result,
    }
}

fn options() -> McpServerOptions {
    McpServerOptions {
        package_name: "runx".to_owned(),
        package_version: "1.0.0".to_owned(),
        tools: vec![
            tool(
                "hello",
                McpServerToolBehavior::Fixed(McpToolResult {
                    content: vec![McpContent { text: "hi".to_owned() }],
                    structured_content: None,
                    is_error: false,
                }),
            ),
            tool("later", McpServerToolBehavior::NotImplemented("not yet".to_owned())),
        ],
    }
}

fn respond(step: McpServerStep) -> String {
    match step {
        McpServerStep::Respond(value) => render_json(&value),
        McpServerStep::Silent => "<silent>".to_owned(),
        McpServerStep::ExecuteSkill { .. } => "<execute>".to_owned(),
    }
}

fn request(method: &str, request_id: Option<JsonValue>, params: Option<JsonValue>) -> JsonValue {
    let mut record = JsonObject::new();
    if let Some(value) = request_id {
        record.insert("id".to_owned(), value);
    }
    record.insert("jsonrpc".to_owned(), s("2.0"));
    record.insert("method".to_owned(), s(method));
    if let Some(value) = params {
        record.insert("params".to_owned(), value);
    }
    JsonValue::Object(record)
}

#[test]
fn ping_and_unknown_methods() {
    let options = options();
    assert_eq!(
        respond(handle_mcp_server_request(&options, &request("ping", Some(id(1)), None))),
        "{\"id\":1,\"jsonrpc\":\"2.0\",\"result\":{}}"
    );
    assert_eq!(
        respond(handle_mcp_server_request(&options, &request("nope", Some(id(2)), None))),
        "{\"error\":{\"code\":-32601,\"message\":\"method not found\"},\"id\":2,\"jsonrpc\":\"2.0\"}"
    );
    assert_eq!(
        respond(handle_mcp_server_request(&options, &request("notifications/initialized", None, None))),
        "<silent>"
    );
    assert_eq!(
        respond(handle_mcp_server_request(&options, &s("junk"))),
        "{\"error\":{\"code\":-32600,\"message\":\"invalid request\"},\"id\":null,\"jsonrpc\":\"2.0\"}"
    );
}

#[test]
fn tool_calls_answer_fixed_results_and_errors() {
    let options = options();
    let call = |name: &str| {
        request(
            "tools/call",
            Some(id(3)),
            Some(JsonValue::Object(obj(vec![("name", s(name))]))),
        )
    };
    assert_eq!(
        respond(handle_mcp_server_request(&options, &call("hello"))),
        "{\"id\":3,\"jsonrpc\":\"2.0\",\"result\":{\"content\":[{\"text\":\"hi\",\"type\":\"text\"}]}}"
    );
    assert_eq!(
        respond(handle_mcp_server_request(&options, &call("later"))),
        "{\"error\":{\"code\":-32000,\"message\":\"not yet\"},\"id\":3,\"jsonrpc\":\"2.0\"}"
    );
    assert_eq!(
        respond(handle_mcp_server_request(&options, &call("ghost"))),
        "{\"error\":{\"code\":-32601,\"message\":\"tool not found: ghost\"},\"id\":3,\"jsonrpc\":\"2.0\"}"
    );
    let bad_arguments = request(
        "tools/call",
        Some(id(4)),
        Some(JsonValue::Object(obj(vec![("name", s("hello")), ("arguments", s("x"))]))),
    );
    assert!(respond(handle_mcp_server_request(&options, &bad_arguments)).contains("tool arguments must be an object"));
}

#[test]
fn tools_list_names_every_tool() {
    let listed = respond(handle_mcp_server_request(&options(), &request("tools/list", Some(id(5)), None)));
    assert!(listed.contains("\"name\":\"hello\""));
    assert!(listed.contains("\"name\":\"later\""));
}

#[test]
fn duplicate_tool_names_are_refused() {
    assert!(assert_unique_server_tool_names(&options().tools).is_ok());
    let mut tools = options().tools;
    tools.push(tool("hello", McpServerToolBehavior::NotImplemented("x".to_owned())));
    let error = assert_unique_server_tool_names(&tools).unwrap_err();
    assert!(error.message.contains("hello"));
}
