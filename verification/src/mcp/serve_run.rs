//! Running a skill served as an MCP tool: what a call decides before the
//! run (inputs, run id, the kind of run) and the tool result each way a
//! run ends in.
use vstd::prelude::*;
use crate::adapter::{InvocationStatus, SkillOutput};
use crate::json::{JsonData, JsonObject, JsonValue, lemma_entries_data, lemma_seq_data, seq_data};
use crate::mcp::protocol::{McpHostRunResult, McpToolResult, host_result_view, jstr, mcp_tool_result_from_host_result,
    sv, tool_result_view};
use crate::mcp::serve_skill::{InputResolutionRequest, McpServerState, Question, apply_input_defaults, completed_runx,
    input_resolution_request, inputs_schema_data, questions_ascending, question_view, questions_for, request_id, segment,
    skill_inputs_to_json_schema, terminal_runx, terminal_runx_data, with_defaults};
use crate::mcp::server::{McpServerExecutionOptions, McpServerOptions, McpServerSkillExecution, McpServerTool,
    McpServerToolBehavior};
use crate::reference::{copy_opt_string, opt_str};
use crate::skill::types::{SourceKind, ValidatedSkill};
use crate::skill::validate::{input_names_ascending, inputs_view};
use crate::text::{concat, concat3, decimal, lemma_decimal_injective, trim};

verus! {

// ---------------------------------------------------------------------
// Before the run.
// ---------------------------------------------------------------------

/// What a call of a served skill goes on to do.
#[derive(Debug)]
pub enum McpSkillRunPlan {
    /// Required inputs are missing: ask the caller for them.
    NeedsInput { run_id: String, request: InputResolutionRequest },
    /// The skill is a graph: run it.
    Graph { run_id: String, inputs: JsonObject },
    /// Run the skill once.
    Single { run_id: String, inputs: JsonObject },
}

/// The run counter after one more run.
pub open spec fn advanced(n: u64) -> u64 {
    if n == u64::MAX {
        u64::MAX
    } else {
        (n + 1) as u64
    }
}

/// The id of the run numbered `n` of `skill_name`.
pub open spec fn run_id_of(skill_name: Seq<char>, n: u64) -> Seq<char> {
    "rx_mcp_"@ + segment(skill_name) + "_"@ + decimal(n as nat)
}

/// Run ids never repeat within a serving process: runs with different
/// numbers get different ids.
pub proof fn law_run_ids_never_repeat(skill_name: Seq<char>, a: u64, b: u64)
    requires
        a != b,
    ensures
        run_id_of(skill_name, a) != run_id_of(skill_name, b),
{
    let prefix = "rx_mcp_"@ + segment(skill_name) + "_"@;
    if run_id_of(skill_name, a) == run_id_of(skill_name, b) {
        assert(run_id_of(skill_name, a) =~= prefix + decimal(a as nat));
        assert(run_id_of(skill_name, b) =~= prefix + decimal(b as nat));
        assert((prefix + decimal(a as nat)).skip(prefix.len() as int) =~= decimal(a as nat));
        assert((prefix + decimal(b as nat)).skip(prefix.len() as int) =~= decimal(b as nat));
        lemma_decimal_injective(a as nat, b as nat);
    }
}

/// Decides how a call of a served skill runs: the declared defaults fill
/// absent inputs; missing required inputs are asked for; otherwise a graph
/// skill runs as a graph and any other as one run. Each call takes the
/// next run id.
pub fn plan_mcp_server_skill(state: &mut McpServerState, skill: &ValidatedSkill, inputs: JsonObject) -> (r: McpSkillRunPlan)
    requires
        inputs.wf(),
        input_names_ascending(skill.inputs@),
    ensures
        final(state).next_run_sequence == advanced(old(state).next_run_sequence),
        ({
            let filled = with_defaults(inputs.view(), inputs_view(skill.inputs@));
            let questions = questions_for(filled, inputs_view(skill.inputs@));
            let id = run_id_of(skill.name@, final(state).next_run_sequence);
            match r {
                McpSkillRunPlan::NeedsInput { run_id, request } => questions.len() > 0
                    && run_id@ == id
                    && request.questions@.map_values(|q: Question| question_view(q)) == questions
                    && request.id@ == request_id(skill.name@, questions)
                    && questions_ascending(request.questions@),
                McpSkillRunPlan::Graph { run_id, inputs: given } => questions.len() == 0
                    && skill.source.source_type == SourceKind::Graph
                    && run_id@ == id
                    && given.view() == filled,
                McpSkillRunPlan::Single { run_id, inputs: given } => questions.len() == 0
                    && skill.source.source_type != SourceKind::Graph
                    && run_id@ == id
                    && given.view() == filled,
            }
        }),
{
    let filled = apply_input_defaults(skill, inputs);
    match input_resolution_request(skill, &filled) {
        Some(request) => {
            let run_id = state.next_run_id(skill.name.as_str());
            McpSkillRunPlan::NeedsInput { run_id, request }
        },
        None => {
            let run_id = state.next_run_id(skill.name.as_str());
            match skill.source.source_type {
                SourceKind::Graph => McpSkillRunPlan::Graph { run_id, inputs: filled },
                _ => McpSkillRunPlan::Single { run_id, inputs: filled },
            }
        },
    }
}

// ---------------------------------------------------------------------
// Waiting on the caller.
// ---------------------------------------------------------------------

/// The `runx` block of a run waiting on the caller, with its requests.
pub open spec fn needs_agent_runx_data(skill_name: Seq<char>, run_id: Seq<char>, requests: Seq<JsonData>) -> Seq<(Seq<char>, JsonData)> {
    seq![
        ("events"@, JsonData::Array(Seq::empty())),
        ("requests"@, JsonData::Array(requests)),
        ("runId"@, sv(run_id)),
        ("skillName"@, sv(skill_name)),
        ("status"@, sv("needs_agent"@)),
    ]
}

/// The `runx` block of a run that waits on the caller;
/// the requests come in their JSON form.
pub fn needs_agent_runx(skill_name: &str, run_id: &str, requests: Vec<JsonValue>) -> (r: JsonObject)
    ensures
        r.view() == needs_agent_runx_data(skill_name@, run_id@, seq_data(requests@)),
{
    let ghost rs = requests@;
    let events: Vec<JsonValue> = Vec::new();
    let r = JsonObject {
        entries: vec![
            ("events".to_owned(), JsonValue::Array(events)),
            ("requests".to_owned(), JsonValue::Array(requests)),
            ("runId".to_owned(), jstr(run_id)),
            ("skillName".to_owned(), jstr(skill_name)),
            ("status".to_owned(), jstr("needs_agent")),
        ],
    };
    proof {
        lemma_entries_data(r.entries@);
        lemma_seq_data(Seq::<JsonValue>::empty());
        assert(seq_data(Seq::<JsonValue>::empty()) =~= Seq::<JsonData>::empty());
        assert(r.view() =~= needs_agent_runx_data(skill_name@, run_id@, seq_data(rs)));
    }
    r
}

/// The text of a run that waits on the caller for one request.
pub open spec fn needs_input_text(skill_name: Seq<char>, run_id: Seq<char>) -> Seq<char> {
    skill_name + " needs agent input at "@ + run_id
        + ". Continue by rerunning the same skill with --run-id "@ + run_id
        + " --answers answers.json after resolving "@ + decimal(1) + " request(s)."@
}

/// The tool result of a call that waits on the caller for one request,
/// given in its JSON form.
pub fn needs_input_tool_result(skill_name: &str, run_id: &str, request: JsonValue) -> (r: McpToolResult)
    ensures
        tool_result_view(r) == host_result_view(needs_input_text(skill_name@, run_id@),
            needs_agent_runx_data(skill_name@, run_id@, seq![request.data()]), false),
{
    let ghost d = request.data();
    let requests = vec![request];
    proof {
        lemma_seq_data(requests@);
        assert(seq_data(requests@) =~= seq![d]);
    }
    let runx = needs_agent_runx(skill_name, run_id, requests);
    let host = McpHostRunResult::NeedsAgent {
        skill_name: skill_name.to_owned(),
        run_id: run_id.to_owned(),
        request_count: 1,
        runx,
    };
    mcp_tool_result_from_host_result(host)
}

// ---------------------------------------------------------------------
// After the run.
// ---------------------------------------------------------------------

/// The `runx` block of a completed single run.
pub open spec fn completed_runx_data(skill_name: Seq<char>, run_id: Seq<char>, receipt_id: Seq<char>, stdout: Seq<char>) -> Seq<(Seq<char>, JsonData)> {
    seq![
        ("events"@, JsonData::Array(Seq::empty())),
        ("output"@, sv(stdout)),
        ("receiptId"@, sv(receipt_id)),
        ("runId"@, sv(run_id)),
        ("skillName"@, sv(skill_name)),
        ("status"@, sv("completed"@)),
    ]
}

/// The text of a completed run: its output, or a pointer to its receipt
/// when the output is blank.
pub open spec fn completed_text(skill_name: Seq<char>, receipt_id: Seq<char>, output: Seq<char>) -> Seq<char> {
    if trim(output).len() == 0 {
        skill_name + " completed. Inspect receipt "@ + receipt_id + "."@
    } else {
        output
    }
}

/// The text of a failed run.
pub open spec fn failed_text(skill_name: Seq<char>, receipt_id: Seq<char>, error: Seq<char>) -> Seq<char> {
    trim(skill_name + " failed. Inspect receipt "@ + receipt_id + ". "@ + error)
}

/// What a failed single run reports as its error.
pub open spec fn run_error(stderr: Seq<char>) -> Seq<char> {
    if stderr.len() == 0 {
        "skill execution failed"@
    } else {
        stderr
    }
}

/// The tool result of a single run once its
/// receipt is written: a success carries the output; a failure its
/// error (or a generic one when it wrote none).
pub fn complete_mcp_server_skill(skill_name: &str, run_id: &str, receipt_id: &str, output: &SkillOutput) -> (r: McpToolResult)
    ensures
        output.status == InvocationStatus::Success ==> tool_result_view(r) == host_result_view(
            completed_text(skill_name@, receipt_id@, output.stdout@),
            completed_runx_data(skill_name@, run_id@, receipt_id@, output.stdout@), false),
        output.status == InvocationStatus::Failure ==> tool_result_view(r) == host_result_view(
            failed_text(skill_name@, receipt_id@, run_error(output.stderr@)),
            terminal_runx_data("failed"@, skill_name@, run_id@, receipt_id@), true),
{
    let host = if output.succeeded() {
        McpHostRunResult::Completed {
            skill_name: skill_name.to_owned(),
            output: output.stdout.clone(),
            receipt_id: receipt_id.to_owned(),
            runx: completed_runx(skill_name, run_id, receipt_id, output.stdout.as_str()),
        }
    } else {
        let error = if output.stderr.as_str().unicode_len() == 0 {
            "skill execution failed".to_owned()
        } else {
            output.stderr.clone()
        };
        McpHostRunResult::Failed {
            skill_name: skill_name.to_owned(),
            receipt_id: Some(receipt_id.to_owned()),
            error,
            runx: terminal_runx("failed", skill_name, run_id, receipt_id),
        }
    };
    proof {
        reveal_strlit("skill execution failed");
        reveal_strlit("failed");
    }
    mcp_tool_result_from_host_result(host)
}

/// The tool result of a graph run once its receipt
/// is written: completed when the graph succeeded, failed with the
/// graph's final status otherwise.
pub fn graph_run_mcp_result(skill_name: &str, run_id: &str, receipt_id: &str, succeeded: bool, status_name: &str) -> (r: McpToolResult)
    ensures
        succeeded ==> tool_result_view(r) == host_result_view(
            completed_text(skill_name@, receipt_id@, Seq::empty()),
            terminal_runx_data("completed"@, skill_name@, run_id@, receipt_id@), false),
        !succeeded ==> tool_result_view(r) == host_result_view(
            failed_text(skill_name@, receipt_id@, "graph ended with status "@ + status_name@),
            terminal_runx_data("failed"@, skill_name@, run_id@, receipt_id@), true),
{
    let host = if succeeded {
        McpHostRunResult::Completed {
            skill_name: skill_name.to_owned(),
            output: String::new(),
            receipt_id: receipt_id.to_owned(),
            runx: terminal_runx("completed", skill_name, run_id, receipt_id),
        }
    } else {
        McpHostRunResult::Failed {
            skill_name: skill_name.to_owned(),
            receipt_id: Some(receipt_id.to_owned()),
            error: concat("graph ended with status ", status_name),
            runx: terminal_runx("failed", skill_name, run_id, receipt_id),
        }
    };
    proof {
        reveal_strlit("completed");
        reveal_strlit("failed");
    }
    mcp_tool_result_from_host_result(host)
}

// ---------------------------------------------------------------------
// The served tools.
// ---------------------------------------------------------------------

/// Why a server cannot be set up.
#[derive(Debug, PartialEq)]
pub enum McpServerSetupError {
    /// Served skills run without runner selection.
    UnsupportedRunnerSelection { runner: String },
}

pub open spec fn pairs_view(v: Seq<(String, String)>) -> Seq<(Seq<char>, Seq<char>)> {
    v.map_values(|p: (String, String)| (p.0@, p.1@))
}

fn copy_pairs(v: &Vec<(String, String)>) -> (r: Vec<(String, String)>)
    ensures
        pairs_view(r@) == pairs_view(v@),
{
    let mut out: Vec<(String, String)> = Vec::new();
    let mut i: usize = 0;
    while i < v.len()
        invariant
            i <= v@.len(),
            out@.len() == i,
            forall|j: int| 0 <= j < i ==> (#[trigger] out@[j]).0@ == v@[j].0@ && out@[j].1@ == v@[j].1@,
        decreases v@.len() - i,
    {
        out.push((v[i].0.clone(), v[i].1.clone()));
        i += 1;
    }
    proof {
        assert(pairs_view(out@) =~= pairs_view(v@));
    }
    out
}

/// The description a served skill's tool carries.
pub open spec fn tool_description(name: Seq<char>, description: Option<Seq<char>>) -> Seq<char> {
    match description {
        Some(d) => d,
        None => "runx skill "@ + name,
    }
}

/// `t` is the tool that serves `skill`, found at `path`, run with
/// `execution`.
pub open spec fn serves_skill(t: McpServerTool, path: Seq<char>, skill: ValidatedSkill, execution: McpServerExecutionOptions) -> bool {
    &&& t.name@ == skill.name@
    &&& t.description@ == tool_description(skill.name@, opt_str(skill.description))
    &&& t.input_schema.view() == inputs_schema_data(inputs_view(skill.inputs@))
    &&& t.result matches McpServerToolBehavior::Skill(e)
        && e.skill_path@ == path
        && e.skill == skill
        && opt_str(e.receipt_dir) == opt_str(execution.receipt_dir)
        && pairs_view(e.env@) == pairs_view(execution.env@)
}

/// The tool that serves a loaded skill: its name,
/// its description (or a generic one), the JSON schema of its inputs, and
/// how to run it.
pub fn load_mcp_server_tool(skill_path: String, skill: ValidatedSkill, execution: &McpServerExecutionOptions) -> (r: McpServerTool)
    ensures
        serves_skill(r, skill_path@, skill, *execution),
{
    let name = skill.name.clone();
    let description = match copy_opt_string(&skill.description) {
        Some(d) => d,
        None => concat("runx skill ", skill.name.as_str()),
    };
    let input_schema = skill_inputs_to_json_schema(&skill.inputs);
    let receipt_dir = copy_opt_string(&execution.receipt_dir);
    let env = copy_pairs(&execution.env);
    let run = McpServerSkillExecution { skill_path, skill, receipt_dir, env };
    proof {
        reveal_strlit("runx skill ");
    }
    McpServerTool { name, description, input_schema, result: McpServerToolBehavior::Skill(Box::new(run)) }
}

/// Served skills run without runner selection: execution options that
/// name a runner are refused, before any skill is loaded.
pub fn reject_runner_selection(execution: &McpServerExecutionOptions) -> (r: Result<(), McpServerSetupError>)
    ensures
        execution.runner is None <==> r is Ok,
        execution.runner matches Some(runner) ==> (r matches Err(McpServerSetupError::UnsupportedRunnerSelection { runner: x })
            && x@ == runner@),
{
    match &execution.runner {
        Some(runner) => Err(McpServerSetupError::UnsupportedRunnerSelection { runner: runner.clone() }),
        None => Ok(()),
    }
}

impl McpServerOptions {
    /// The server that serves each loaded skill, in order, under the given
    /// package name and version. Served skills run without runner
    /// selection: naming a runner is refused (as `reject_runner_selection`
    /// refuses it, which a loader calls before reading any skill).
    pub fn from_skill_paths_with_execution(
        skills: Vec<(String, ValidatedSkill)>,
        package_name: String,
        package_version: String,
        execution: McpServerExecutionOptions,
    ) -> (r: Result<McpServerOptions, McpServerSetupError>)
        ensures
            execution.runner matches Some(runner) ==> (r matches Err(McpServerSetupError::UnsupportedRunnerSelection { runner: x })
                && x@ == runner@),
            execution.runner is None ==> (r matches Ok(o)
                && o.package_name@ == package_name@
                && o.package_version@ == package_version@
                && o.tools@.len() == skills@.len()
                && forall|i: int| 0 <= i < skills@.len() ==>
                    serves_skill(#[trigger] o.tools@[i], skills@[i].0@, skills@[i].1, execution)),
    {
        match reject_runner_selection(&execution) {
            Ok(()) => {},
            Err(e) => {
                return Err(e);
            },
        }
        let ghost all = skills@;
        let mut rest = skills;
        let total = rest.len();
        let mut tools: Vec<McpServerTool> = Vec::new();
        let mut i: usize = 0;
        while rest.len() > 0
            invariant
                i <= all.len(),
                all.len() == total,
                rest@ == all.skip(i as int),
                tools@.len() == i,
                forall|j: int| 0 <= j < i ==> serves_skill(#[trigger] tools@[j], all[j].0@, all[j].1, execution),
            decreases rest@.len(),
        {
            let (path, skill) = rest.remove(0);
            proof {
                assert(all.skip(i as int)[0] == all[i as int]);
                assert(all.skip(i as int).remove(0) =~= all.skip(i + 1));
            }
            tools.push(load_mcp_server_tool(path, skill, &execution));
            i += 1;
        }
        proof {
            assert(i == all.len()) by {
                assert(all.skip(i as int).len() == 0);
            }
        }
        Ok(McpServerOptions { package_name, package_version, tools })
    }
}

} // verus!
