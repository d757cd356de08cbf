use runx::adapter::{InvocationStatus, SkillOutput};
use runx::json::{JsonObject, JsonValue};
use runx::json_text::render_json;
use runx::mcp::protocol::McpToolResult;
use runx::mcp::serve_run::{
    McpServerSetupError, McpSkillRunPlan, complete_mcp_server_skill, graph_run_mcp_result, load_mcp_server_tool,
    needs_agent_runx, needs_input_tool_result, plan_mcp_server_skill, reject_runner_selection,
};
use runx::mcp::server::{McpServerExecutionOptions, McpServerOptions, McpServerToolBehavior};
use runx::mcp::serve_skill::McpServerState;
use runx::skill::types::{RawSkillIr, ValidatedSkill};
use runx::skill::validate::validate_skill;

fn obj(entries: Vec<(&str, JsonValue)>) -> JsonObject {
    JsonObject { entries: entries.into_iter().map(|(k, v)| (k.to_owned(), v)).collect() }
}

fn s(v: &str) -> JsonValue {
    JsonValue::String(v.to_owned())
}

fn skill(extra: Vec<(&str, JsonValue)>) -> ValidatedSkill {
    let mut entries = vec![("name", s("Echo Tool"))];
    entries.extend(extra);
    validate_skill(RawSkillIr { frontmatter: obj(entries), raw_frontmatter: String::new(), body: "Body.".to_owned() })
        .expect("a valid skill")
}

fn inputs() -> JsonValue {
    JsonValue::Object(obj(vec![
        ("topic", JsonValue::Object(obj(vec![("type", s("string")), ("required", JsonValue::Bool(true))]))),
        ("tone", JsonValue::Object(obj(vec![("type", s("string")), ("default", s("plain"))]))),
    ]))
}

fn text(result: &McpToolResult) -> &str {
    &result.content[0].text
}

fn runx_block(result: &McpToolResult) -> String {
    match result.structured_content.as_ref().and_then(|o| o.get("runx")) {
        Some(v) => render_json(v),
        None => String::new(),
    }
}

#[test]
fn missing_required_inputs_are_asked_for() {
    let skill = skill(vec![("inputs", inputs())]);
    let mut state = McpServerState::new();
    match plan_mcp_server_skill(&mut state, &skill, JsonObject::new()) {
        McpSkillRunPlan::NeedsInput { run_id, request } => {
            assert_eq!(run_id, "rx_mcp_Echo_Tool_1");
            assert_eq!(request.id, "input.Echo_Tool.topic");
            assert_eq!(request.questions.len(), 1);
            assert_eq!(request.questions[0].prompt, "Provide topic.");
        }
        other => panic!("expected a question, got {other:?}"),
    }
    assert_eq!(state.next_run_sequence, 1);
}

#[test]
fn complete_inputs_run_once_with_defaults() {
    let skill = skill(vec![("inputs", inputs())]);
    let mut state = McpServerState::new();
    state.next_run_sequence = 4;
    match plan_mcp_server_skill(&mut state, &skill, obj(vec![("topic", s("rust"))])) {
        McpSkillRunPlan::Single { run_id, inputs } => {
            assert_eq!(run_id, "rx_mcp_Echo_Tool_5");
            assert_eq!(inputs.get("tone"), Some(&s("plain")));
            assert_eq!(inputs.get("topic"), Some(&s("rust")));
        }
        other => panic!("expected a single run, got {other:?}"),
    }
}

#[test]
fn needs_agent_blocks_carry_the_requests() {
    let runx = needs_agent_runx("echo", "rx_1", vec![JsonValue::Object(obj(vec![("id", s("q"))]))]);
    assert_eq!(
        render_json(&JsonValue::Object(runx)),
        "{\"events\":[],\"requests\":[{\"id\":\"q\"}],\"runId\":\"rx_1\",\"skillName\":\"echo\",\"status\":\"needs_agent\"}"
    );
    let result = needs_input_tool_result("echo", "rx_1", s("request"));
    assert!(!result.is_error);
    assert_eq!(
        text(&result),
        "echo needs agent input at rx_1. Continue by rerunning the same skill with --run-id rx_1 --answers answers.json after resolving 1 request(s)."
    );
}

fn output(status: InvocationStatus, stdout: &str, stderr: &str) -> SkillOutput {
    SkillOutput {
        status,
        stdout: stdout.to_owned(),
        stderr: stderr.to_owned(),
        exit_code: None,
        duration_ms: 0,
        metadata: JsonObject::new(),
    }
}

#[test]
fn completed_runs_report_output_or_receipt() {
    let done = complete_mcp_server_skill("echo", "rx_1", "rcpt_1", &output(InvocationStatus::Success, "hello", ""));
    assert_eq!(text(&done), "hello");
    assert!(!done.is_error);
    assert_eq!(
        runx_block(&done),
        "{\"events\":[],\"output\":\"hello\",\"receiptId\":\"rcpt_1\",\"runId\":\"rx_1\",\"skillName\":\"echo\",\"status\":\"completed\"}"
    );
    let blank = complete_mcp_server_skill("echo", "rx_1", "rcpt_1", &output(InvocationStatus::Success, "  ", ""));
    assert_eq!(text(&blank), "echo completed. Inspect receipt rcpt_1.");
}

#[test]
fn failed_runs_report_their_error() {
    let failed = complete_mcp_server_skill("echo", "rx_1", "rcpt_1", &output(InvocationStatus::Failure, "", "boom"));
    assert!(failed.is_error);
    assert_eq!(text(&failed), "echo failed. Inspect receipt rcpt_1. boom");
    let silent = complete_mcp_server_skill("echo", "rx_1", "rcpt_1", &output(InvocationStatus::Failure, "", ""));
    assert_eq!(text(&silent), "echo failed. Inspect receipt rcpt_1. skill execution failed");
}

#[test]
fn graph_runs_report_their_final_status() {
    let ok = graph_run_mcp_result("flow", "rx_2", "rcpt_2", true, "Succeeded");
    assert!(!ok.is_error);
    assert_eq!(text(&ok), "flow completed. Inspect receipt rcpt_2.");
    let failed = graph_run_mcp_result("flow", "rx_2", "rcpt_2", false, "Failed");
    assert!(failed.is_error);
    assert_eq!(text(&failed), "flow failed. Inspect receipt rcpt_2. graph ended with status Failed");
    assert_eq!(
        runx_block(&failed),
        "{\"events\":[],\"receiptId\":\"rcpt_2\",\"runId\":\"rx_2\",\"skillName\":\"flow\",\"status\":\"failed\"}"
    );
}

#[test]
fn graph_skills_run_as_graphs() {
    let source = JsonValue::Object(obj(vec![
        ("type", s("graph")),
        ("graph", JsonValue::Object(obj(vec![("name", s("flow"))]))),
    ]));
    let skill = skill(vec![("source", source)]);
    let mut state = McpServerState::new();
    match plan_mcp_server_skill(&mut state, &skill, JsonObject::new()) {
        McpSkillRunPlan::Graph { run_id, inputs } => {
            assert_eq!(run_id, "rx_mcp_Echo_Tool_1");
            assert!(inputs.is_empty());
        }
        other => panic!("expected a graph run, got {other:?}"),
    }
}

fn execution(runner: Option<&str>) -> McpServerExecutionOptions {
    McpServerExecutionOptions {
        runner: runner.map(str::to_owned),
        receipt_dir: Some("/tmp/receipts".to_owned()),
        env: vec![("HOME".to_owned(), "/home/me".to_owned())],
    }
}

#[test]
fn served_tools_describe_their_skill() {
    let tool = load_mcp_server_tool("skills/echo".to_owned(), skill(vec![("inputs", inputs())]), &execution(None));
    assert_eq!(tool.name, "Echo Tool");
    assert_eq!(tool.description, "runx skill Echo Tool");
    assert_eq!(tool.input_schema.get("required"), Some(&JsonValue::Array(vec![s("topic")])));
    match tool.result {
        McpServerToolBehavior::Skill(run) => {
            assert_eq!(run.skill_path, "skills/echo");
            assert_eq!(run.receipt_dir.as_deref(), Some("/tmp/receipts"));
            assert_eq!(run.env, vec![("HOME".to_owned(), "/home/me".to_owned())]);
        }
        other => panic!("expected a skill tool, got {other:?}"),
    }
    let described = load_mcp_server_tool("x".to_owned(), skill(vec![("description", s("Echoes."))]), &execution(None));
    assert_eq!(described.description, "Echoes.");
}

#[test]
fn servers_serve_each_skill_in_order() {
    let options = McpServerOptions::from_skill_paths_with_execution(
        vec![("a".to_owned(), skill(vec![])), ("b".to_owned(), skill(vec![("description", s("B"))]))],
        "pkg".to_owned(),
        "1.0.0".to_owned(),
        execution(None),
    )
    .expect("a server");
    assert_eq!(options.package_name, "pkg");
    assert_eq!(options.tools.len(), 2);
    assert_eq!(options.tools[1].description, "B");
}

#[test]
fn runner_selection_is_refused_for_served_skills() {
    let refused = McpServerOptions::from_skill_paths_with_execution(
        vec![("a".to_owned(), skill(vec![]))],
        "pkg".to_owned(),
        "1.0.0".to_owned(),
        execution(Some("fast")),
    );
    assert_eq!(refused.err(), Some(McpServerSetupError::UnsupportedRunnerSelection { runner: "fast".to_owned() }));
}

#[test]
fn successive_calls_get_distinct_run_ids() {
    let skill = skill(vec![]);
    let mut state = McpServerState::new();
    let first = match plan_mcp_server_skill(&mut state, &skill, JsonObject::new()) {
        McpSkillRunPlan::Single { run_id, .. } => run_id,
        other => panic!("expected a single run, got {other:?}"),
    };
    let second = match plan_mcp_server_skill(&mut state, &skill, JsonObject::new()) {
        McpSkillRunPlan::Single { run_id, .. } => run_id,
        other => panic!("expected a single run, got {other:?}"),
    };
    assert_eq!(first, "rx_mcp_Echo_Tool_1");
    assert_eq!(second, "rx_mcp_Echo_Tool_2");
    assert_ne!(first, second);
}

#[test]
fn a_runner_selection_is_refused_before_loading() {
    assert_eq!(reject_runner_selection(&execution(None)), Ok(()));
    assert_eq!(
        reject_runner_selection(&execution(Some("fast"))),
        Err(McpServerSetupError::UnsupportedRunnerSelection { runner: "fast".to_owned() })
    );
}
