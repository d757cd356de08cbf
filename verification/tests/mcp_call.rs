use std::cell::Cell;

use runx::adapter::{InvocationStatus, RuntimeError, SkillInvocation};
use runx::json::{JsonObject, JsonValue};
use runx::mcp::call::{
    McpAdapter, McpSandboxPreparation, RunClock, mcp_call_output, prepare_mcp_tool_call,
    stringify_content_entry, stringify_mcp_tool_result, workspace_root_choice,
};
use runx::mcp::protocol::{McpToolCallRequest, McpTransport, McpTransportError, SandboxPlan};
use runx::skill::types::{SkillMcpServer, SkillSource, SourceKind};

fn object(entries: Vec<(&str, JsonValue)>) -> JsonObject {
    JsonObject { entries: entries.into_iter().map(|(k, v)| (k.to_owned(), v)).collect() }
}

fn text(s: &str) -> JsonValue {
    JsonValue::String(s.to_owned())
}

fn source(kind: SourceKind, server: bool, tool: Option<&str>) -> SkillSource {
    SkillSource {
        source_type: kind,
        command: None,
        args: Vec::new(),
        cwd: None,
        timeout_seconds: Some(2),
        input_mode: None,
        sandbox: None,
        server: if server {
            Some(SkillMcpServer { command: "node".to_owned(), args: vec!["server.js".to_owned()], cwd: None })
        } else {
            None
        },
        catalog_ref: None,
        tool: tool.map(str::to_owned),
        arguments: None,
        agent_card_url: None,
        agent_identity: None,
        agent: None,
        task: None,
        hook: None,
        outputs: None,
        graph: None,
        raw: JsonObject::new(),
    }
}

fn run(source: SkillSource, inputs: JsonObject, resolved_inputs: JsonObject) -> SkillInvocation {
    SkillInvocation {
        skill_name: "echo".to_owned(),
        source,
        inputs,
        resolved_inputs,
        skill_directory: "/work/skill".to_owned(),
        env: Vec::new(),
    }
}

fn plan() -> SandboxPlan {
    SandboxPlan {
        command: "node".to_owned(),
        args: vec!["server.js".to_owned()],
        cwd: "/work/skill".to_owned(),
        env: Vec::new(),
    }
}

#[test]
fn text_content_entries_read_as_their_text() {
    let entry = JsonValue::Object(object(vec![("type", text("text")), ("text", text("hello"))]));
    assert_eq!(stringify_content_entry(&entry), "hello");
    let image = JsonValue::Object(object(vec![("type", text("image")), ("data", text("AA=="))]));
    assert_eq!(stringify_content_entry(&image), "{\"data\":\"AA==\",\"type\":\"image\"}");
}

#[test]
fn tool_results_join_content_entries_by_line() {
    let result = JsonValue::Object(object(vec![(
        "content",
        JsonValue::Array(vec![
            JsonValue::Object(object(vec![("type", text("text")), ("text", text("one"))])),
            JsonValue::Object(object(vec![("type", text("text")), ("text", text("two"))])),
        ]),
    )]));
    assert_eq!(stringify_mcp_tool_result(&result), "one\ntwo");
    assert_eq!(stringify_mcp_tool_result(&text("plain")), "plain");
    assert_eq!(stringify_mcp_tool_result(&JsonValue::Bool(true)), "true");
    let no_content = JsonValue::Object(object(vec![("ok", JsonValue::Bool(true))]));
    assert_eq!(stringify_mcp_tool_result(&no_content), "{\"ok\":true}");
}

#[test]
fn non_mcp_sources_are_refused() {
    let r = prepare_mcp_tool_call(
        run(source(SourceKind::CliTool, true, Some("echo")), JsonObject::new(), JsonObject::new()),
        McpSandboxPreparation::Ready(plan()),
        "/work",
        0,
    );
    assert_eq!(r.err(), Some(RuntimeError::UnsupportedAdapter { adapter_type: "cli-tool".to_owned() }));
}

#[test]
fn mcp_sources_without_server_or_tool_fail_without_calling() {
    for s in [
        source(SourceKind::Mcp, false, Some("echo")),
        source(SourceKind::Mcp, true, None),
        source(SourceKind::Mcp, true, Some("")),
    ] {
        let r = prepare_mcp_tool_call(run(s, JsonObject::new(), JsonObject::new()), McpSandboxPreparation::Ready(plan()), "/work", 7);
        let output = r.ok().and_then(|p| p.err()).expect("a failed run");
        assert_eq!(output.status, InvocationStatus::Failure);
        assert_eq!(output.stderr, "MCP source requires server and tool metadata.");
        assert_eq!(output.duration_ms, 7);
        assert!(output.metadata.is_empty());
    }
}

#[test]
fn denied_sandboxes_fail_with_the_declared_record() {
    let r = prepare_mcp_tool_call(
        run(source(SourceKind::Mcp, true, Some("echo")), JsonObject::new(), JsonObject::new()),
        McpSandboxPreparation::Denied {
            message: "network is not allowed".to_owned(),
            sandbox_metadata: object(vec![("profile", text("readonly"))]),
        },
        "/work",
        3,
    );
    let output = r.ok().and_then(|p| p.err()).expect("a failed run");
    assert_eq!(output.stderr, "MCP sandbox denied: network is not allowed");
    assert_eq!(output.metadata.get("sandbox"), Some(&JsonValue::Object(object(vec![("profile", text("readonly"))]))));
    assert!(output.metadata.get("mcp").is_some());
}

#[test]
fn failed_sandbox_preparation_is_an_error() {
    let r = prepare_mcp_tool_call(
        run(source(SourceKind::Mcp, true, Some("echo")), JsonObject::new(), JsonObject::new()),
        McpSandboxPreparation::Failed { message: "no such directory".to_owned() },
        "/work",
        0,
    );
    assert_eq!(r.err(), Some(RuntimeError::SandboxPreparation { message: "no such directory".to_owned() }));
}

#[test]
fn ready_calls_carry_mapped_arguments_and_timeout() {
    let inputs = object(vec![("message", text("hi"))]);
    let resolved = object(vec![("extra", JsonValue::Bool(false))]);
    let r = prepare_mcp_tool_call(
        run(source(SourceKind::Mcp, true, Some("echo")), inputs, resolved),
        McpSandboxPreparation::Ready(plan()),
        "/work",
        0,
    );
    let prepared = r.ok().and_then(|p| p.ok()).expect("a prepared call");
    assert_eq!(prepared.request.tool, "echo");
    assert_eq!(prepared.request.timeout_ms, 2000);
    assert_eq!(prepared.request.sandbox, plan());
    assert_eq!(prepared.request.arguments, object(vec![("message", text("hi")), ("extra", JsonValue::Bool(false))]));
    let sandbox = match prepared.success_metadata.get("sandbox") {
        Some(JsonValue::Object(o)) => o,
        other => panic!("no sandbox record: {other:?}"),
    };
    assert_eq!(sandbox.get("cwd"), Some(&text("/work/skill")));
    assert_eq!(sandbox.get("workspace_root"), Some(&text("/work")));
    assert!(prepared.failure_metadata.get("sandbox").is_none());
}

#[test]
fn call_outputs_sanitize_transport_errors() {
    let ok = mcp_call_output(JsonObject::new(), JsonObject::new(), Ok(text("done")), 5);
    assert_eq!(ok.status, InvocationStatus::Success);
    assert_eq!(ok.stdout, "done");
    assert_eq!(ok.exit_code, Some(0));
    let failed = mcp_call_output(
        JsonObject::new(),
        object(vec![("mcp", JsonValue::Object(JsonObject::new()))]),
        Err(McpTransportError::failed("server said secret".to_owned())),
        9,
    );
    assert_eq!(failed.status, InvocationStatus::Failure);
    assert_eq!(failed.stderr, "MCP adapter failed.");
    assert_eq!(failed.duration_ms, 9);
    assert!(failed.metadata.get("mcp").is_some());
}

struct EchoTransport;

impl McpTransport for EchoTransport {
    fn call_tool(&self, request: McpToolCallRequest) -> Result<JsonValue, McpTransportError> {
        Ok(JsonValue::String(format!("called {}", request.tool)))
    }
}

struct Ticks(Cell<u64>);

impl RunClock for Ticks {
    fn elapsed_ms(&self) -> u64 {
        let t = self.0.get();
        self.0.set(t + 10);
        t
    }
}

#[test]
fn adapter_runs_prepared_calls_through_the_transport() {
    let adapter = McpAdapter::new(EchoTransport);
    assert_eq!(adapter.adapter_type(), "mcp");
    let output = adapter
        .invoke(
            run(source(SourceKind::Mcp, true, Some("echo")), JsonObject::new(), JsonObject::new()),
            McpSandboxPreparation::Ready(plan()),
            "/work",
            &Ticks(Cell::new(0)),
        )
        .expect("a run");
    assert_eq!(output.status, InvocationStatus::Success);
    assert_eq!(output.stdout, "called echo");
    assert_eq!(output.duration_ms, 10);
}

#[test]
fn the_workspace_root_is_runx_cwd_then_init_cwd() {
    let pair = |k: &str, v: &str| (k.to_owned(), v.to_owned());
    assert_eq!(
        workspace_root_choice(&vec![pair("INIT_CWD", "/init"), pair("RUNX_CWD", "/runx")]),
        Some("/runx".to_owned())
    );
    assert_eq!(workspace_root_choice(&vec![pair("HOME", "/h"), pair("INIT_CWD", "rel")]), Some("rel".to_owned()));
    assert_eq!(workspace_root_choice(&vec![pair("HOME", "/h")]), None);
}
