//! The `source` block of a skill or runner: where it runs and with what.
use vstd::prelude::*;
use crate::json::{JsonData, JsonObject, JsonValue, lookup, opt_data};
use crate::reference::opt_str as opt_seq;
use crate::skill::fields::{
    ObjData, VErr, ValidationError, absent, agrees, field_error, field_of, first, first_value,
    invalid, opt_bool, opt_obj, opt_obj_view, opt_str, opt_str_array, opt_strings_view, opt_u64,
    optional_bool, optional_object, optional_string, optional_string_array, optional_u64, req_obj,
    req_str, required_object, required_string, strings_view, validation_error, field_value,
};
use crate::skill::types::{
    CwdPolicy, InputMode, SandboxProfile, SkillMcpServer, SkillSandbox, SkillSource, SourceKind,
};
use crate::text::{concat, concat3, str_eq};

verus! {

// ---------------------------------------------------------------------
// Source kind and input mode.
// ---------------------------------------------------------------------

pub open spec fn source_kind_spec(value: Seq<char>, field: Seq<char>) -> Result<SourceKind, VErr> {
    if value == "cli-tool"@ {
        Ok(SourceKind::CliTool)
    } else if value == "mcp"@ {
        Ok(SourceKind::Mcp)
    } else if value == "catalog"@ {
        Ok(SourceKind::Catalog)
    } else if value == "a2a"@ {
        Ok(SourceKind::A2a)
    } else if value == "agent"@ {
        Ok(SourceKind::Agent)
    } else if value == "agent-step"@ {
        Ok(SourceKind::AgentStep)
    } else if value == "harness-hook"@ {
        Ok(SourceKind::HarnessHook)
    } else if value == "graph"@ {
        Ok(SourceKind::Graph)
    } else if value == "external-adapter"@ {
        Ok(SourceKind::ExternalAdapter)
    } else {
        Err(invalid(field + " "@ + value + " is not a supported source type."@))
    }
}

/// The source kind named in a skill document.
pub fn parse_source_kind(value: &str, field: &str) -> (r: Result<SourceKind, ValidationError>)
    ensures
        agrees(r, source_kind_spec(value@, field@), |x: SourceKind| x),
{
    if str_eq(value, "cli-tool") {
        Ok(SourceKind::CliTool)
    } else if str_eq(value, "mcp") {
        Ok(SourceKind::Mcp)
    } else if str_eq(value, "catalog") {
        Ok(SourceKind::Catalog)
    } else if str_eq(value, "a2a") {
        Ok(SourceKind::A2a)
    } else if str_eq(value, "agent") {
        Ok(SourceKind::Agent)
    } else if str_eq(value, "agent-step") {
        Ok(SourceKind::AgentStep)
    } else if str_eq(value, "harness-hook") {
        Ok(SourceKind::HarnessHook)
    } else if str_eq(value, "graph") {
        Ok(SourceKind::Graph)
    } else if str_eq(value, "external-adapter") {
        Ok(SourceKind::ExternalAdapter)
    } else {
        let mut m = concat3(field, " ", value);
        m.append(" is not a supported source type.");
        Err(validation_error(m))
    }
}

pub open spec fn input_mode_spec(v: Option<JsonData>) -> Result<Option<InputMode>, VErr> {
    match opt_str(v, "source.input_mode"@) {
        Err(e) => Err(e),
        Ok(None) => Ok(None),
        Ok(Some(s)) => if s == "args"@ {
            Ok(Some(InputMode::Args))
        } else if s == "stdin"@ {
            Ok(Some(InputMode::Stdin))
        } else if s == "none"@ {
            Ok(Some(InputMode::NoInput))
        } else {
            Err(invalid("source.input_mode must be args, stdin, or none."@))
        },
    }
}

pub fn optional_input_mode(value: Option<&JsonValue>) -> (r: Result<Option<InputMode>, ValidationError>)
    ensures
        agrees(r, input_mode_spec(opt_data(value)), |x: Option<InputMode>| x),
{
    let s = match optional_string(value, "source.input_mode") {
        Err(e) => return Err(e),
        Ok(None) => return Ok(None),
        Ok(Some(s)) => s,
    };
    if str_eq(s.as_str(), "args") {
        Ok(Some(InputMode::Args))
    } else if str_eq(s.as_str(), "stdin") {
        Ok(Some(InputMode::Stdin))
    } else if str_eq(s.as_str(), "none") {
        Ok(Some(InputMode::NoInput))
    } else {
        Err(validation_error("source.input_mode must be args, stdin, or none.".to_owned()))
    }
}

// ---------------------------------------------------------------------
// Sandbox.
// ---------------------------------------------------------------------

pub open spec fn profile_spec(v: Option<JsonData>, field: Seq<char>) -> Result<SandboxProfile, VErr> {
    match req_str(v, field) {
        Err(e) => Err(e),
        Ok(p) => if p == "readonly"@ {
            Ok(SandboxProfile::Readonly)
        } else if p == "workspace-write"@ {
            Ok(SandboxProfile::WorkspaceWrite)
        } else if p == "network"@ {
            Ok(SandboxProfile::Network)
        } else if p == "unrestricted-local-dev"@ {
            Ok(SandboxProfile::UnrestrictedLocalDev)
        } else {
            Err(invalid(field + " must be readonly, workspace-write, network, or unrestricted-local-dev."@))
        },
    }
}

/// The sandbox profile: one of the four known profiles.
pub fn required_sandbox_profile(value: Option<&JsonValue>, field: &str) -> (r: Result<SandboxProfile, ValidationError>)
    ensures
        agrees(r, profile_spec(opt_data(value), field@), |x: SandboxProfile| x),
{
    let p = match required_string(value, field) {
        Err(e) => return Err(e),
        Ok(p) => p,
    };
    let t = p.as_str();
    if str_eq(t, "readonly") {
        Ok(SandboxProfile::Readonly)
    } else if str_eq(t, "workspace-write") {
        Ok(SandboxProfile::WorkspaceWrite)
    } else if str_eq(t, "network") {
        Ok(SandboxProfile::Network)
    } else if str_eq(t, "unrestricted-local-dev") {
        Ok(SandboxProfile::UnrestrictedLocalDev)
    } else {
        Err(field_error(field, " must be readonly, workspace-write, network, or unrestricted-local-dev."))
    }
}

pub open spec fn cwd_policy_spec(v: Option<JsonData>) -> Result<Option<CwdPolicy>, VErr> {
    match opt_str(v, "sandbox.cwd_policy"@) {
        Err(e) => Err(e),
        Ok(None) => Ok(None),
        Ok(Some(s)) => if s == "skill-directory"@ {
            Ok(Some(CwdPolicy::SkillDirectory))
        } else if s == "workspace"@ {
            Ok(Some(CwdPolicy::Workspace))
        } else if s == "custom"@ {
            Ok(Some(CwdPolicy::Custom))
        } else {
            Err(invalid("sandbox.cwd_policy must be skill-directory, workspace, or custom."@))
        },
    }
}

pub fn optional_cwd_policy(value: Option<&JsonValue>) -> (r: Result<Option<CwdPolicy>, ValidationError>)
    ensures
        agrees(r, cwd_policy_spec(opt_data(value)), |x: Option<CwdPolicy>| x),
{
    let s = match optional_string(value, "sandbox.cwd_policy") {
        Err(e) => return Err(e),
        Ok(None) => return Ok(None),
        Ok(Some(s)) => s,
    };
    if str_eq(s.as_str(), "skill-directory") {
        Ok(Some(CwdPolicy::SkillDirectory))
    } else if str_eq(s.as_str(), "workspace") {
        Ok(Some(CwdPolicy::Workspace))
    } else if str_eq(s.as_str(), "custom") {
        Ok(Some(CwdPolicy::Custom))
    } else {
        Err(validation_error("sandbox.cwd_policy must be skill-directory, workspace, or custom.".to_owned()))
    }
}

pub struct SandboxView {
    pub profile: SandboxProfile,
    pub cwd_policy: Option<CwdPolicy>,
    pub env_allowlist: Option<Seq<Seq<char>>>,
    pub network: Option<bool>,
    pub writable_paths: Seq<Seq<char>>,
    pub require_enforcement: Option<bool>,
    pub approved_escalation: Option<bool>,
    pub raw: ObjData,
}

pub open spec fn sandbox_view(o: Option<SkillSandbox>) -> Option<SandboxView> {
    match o {
        Some(s) => Some(SandboxView {
            profile: s.profile,
            cwd_policy: s.cwd_policy,
            env_allowlist: opt_strings_view(s.env_allowlist),
            network: s.network,
            writable_paths: strings_view(s.writable_paths@),
            require_enforcement: s.require_enforcement,
            approved_escalation: s.approved_escalation,
            raw: s.raw.view(),
        }),
        None => None,
    }
}

pub open spec fn or_empty(o: Option<Seq<Seq<char>>>) -> Seq<Seq<char>> {
    match o {
        Some(v) => v,
        None => Seq::empty(),
    }
}

/// A sandbox block, normalized: the working-directory policy, network
/// access and required enforcement are always set, to the declared value
/// or else to the skill directory, no network and no required
/// enforcement. Only a missing block is no sandbox; a `null` block is
/// refused.
pub open spec fn sandbox_spec(v: Option<JsonData>) -> Result<Option<SandboxView>, VErr> {
    if v is None {
        Ok(None)
    } else {
        match req_obj(v, "sandbox"@) {
            Err(e) => Err(e),
            Ok(r) => match profile_spec(lookup(r, "profile"@), "sandbox.profile"@) {
                Err(e) => Err(e),
                Ok(profile) => match cwd_policy_spec(lookup(r, "cwd_policy"@)) {
                    Err(e) => Err(e),
                    Ok(cwd_policy) => match opt_str_array(lookup(r, "env_allowlist"@), "sandbox.env_allowlist"@) {
                        Err(e) => Err(e),
                        Ok(env_allowlist) => match opt_bool(lookup(r, "network"@), "sandbox.network"@) {
                            Err(e) => Err(e),
                            Ok(network) => match opt_str_array(lookup(r, "writable_paths"@), "sandbox.writable_paths"@) {
                                Err(e) => Err(e),
                                Ok(writable) => match opt_bool(lookup(r, "require_enforcement"@), "sandbox.require_enforcement"@) {
                                    Err(e) => Err(e),
                                    Ok(require_enforcement) => Ok(Some(SandboxView {
                                        profile,
                                        cwd_policy: Some(match cwd_policy {
                                            Some(c) => c,
                                            None => CwdPolicy::SkillDirectory,
                                        }),
                                        env_allowlist,
                                        network: Some(network == Some(true)),
                                        writable_paths: or_empty(writable),
                                        require_enforcement: Some(require_enforcement == Some(true)),
                                        approved_escalation: None,
                                        raw: r,
                                    })),
                                },
                            },
                        },
                    },
                },
            },
        }
    }
}

/// Validates and normalizes a sandbox block.
pub fn validate_sandbox(value: Option<&JsonValue>) -> (r: Result<Option<SkillSandbox>, ValidationError>)
    ensures
        agrees(r, sandbox_spec(opt_data(value)), |x: Option<SkillSandbox>| sandbox_view(x)),
{
    let record_value = match value {
        None => return Ok(None),
        Some(v) => v,
    };
    let record = match required_object(Some(record_value), "sandbox") {
        Err(e) => return Err(e),
        Ok(o) => o,
    };
    let profile = match required_sandbox_profile(record.get("profile"), "sandbox.profile") {
        Err(e) => return Err(e),
        Ok(p) => p,
    };
    let cwd_policy = match optional_cwd_policy(record.get("cwd_policy")) {
        Err(e) => return Err(e),
        Ok(c) => c,
    };
    let env_allowlist = match optional_string_array(record.get("env_allowlist"), "sandbox.env_allowlist") {
        Err(e) => return Err(e),
        Ok(x) => x,
    };
    let network = match optional_bool(record.get("network"), "sandbox.network") {
        Err(e) => return Err(e),
        Ok(x) => x,
    };
    let writable_paths = match optional_string_array(record.get("writable_paths"), "sandbox.writable_paths") {
        Err(e) => return Err(e),
        Ok(Some(x)) => x,
        Ok(None) => {
            let v: Vec<String> = Vec::new();
            proof {
                assert(strings_view(v@) =~= Seq::<Seq<char>>::empty());
            }
            v
        },
    };
    let require_enforcement = match optional_bool(record.get("require_enforcement"), "sandbox.require_enforcement") {
        Err(e) => return Err(e),
        Ok(x) => x,
    };
    let cwd_policy = match cwd_policy {
        Some(c) => c,
        None => CwdPolicy::SkillDirectory,
    };
    let network = match network {
        Some(b) => b,
        None => false,
    };
    let require_enforcement = match require_enforcement {
        Some(b) => b,
        None => false,
    };
    Ok(Some(SkillSandbox {
        profile,
        cwd_policy: Some(cwd_policy),
        env_allowlist,
        network: Some(network),
        writable_paths,
        require_enforcement: Some(require_enforcement),
        approved_escalation: None,
        raw: record.copy(),
    }))
}

// ---------------------------------------------------------------------
// Kind-specific fields.
// ---------------------------------------------------------------------

/// A string field that the source kind makes required (`required`) or
/// leaves optional.
pub open spec fn kind_str(src: ObjData, key: Seq<char>, field: Seq<char>, required: bool) -> Result<Option<Seq<char>>, VErr> {
    if required {
        match req_str(lookup(src, key), field) {
            Err(e) => Err(e),
            Ok(s) => Ok(Some(s)),
        }
    } else {
        opt_str(lookup(src, key), field)
    }
}

pub fn kind_string(source: &JsonObject, key: &str, field: &str, required: bool) -> (r: Result<Option<String>, ValidationError>)
    ensures
        agrees(r, kind_str(source.view(), key@, field@, required), |x: Option<String>| opt_seq(x)),
{
    if required {
        match required_string(source.get(key), field) {
            Err(e) => Err(e),
            Ok(s) => Ok(Some(s)),
        }
    } else {
        optional_string(source.get(key), field)
    }
}

pub struct ServerView {
    pub command: Seq<char>,
    pub args: Seq<Seq<char>>,
    pub cwd: Option<Seq<char>>,
}

pub open spec fn server_view(o: Option<SkillMcpServer>) -> Option<ServerView> {
    match o {
        Some(s) => Some(ServerView { command: s.command@, args: strings_view(s.args@), cwd: opt_seq(s.cwd) }),
        None => None,
    }
}

pub open spec fn server_spec(src: ObjData, source_type: Seq<char>) -> Result<Option<ServerView>, VErr> {
    if source_type != "mcp"@ {
        Ok(None)
    } else {
        match req_obj(lookup(src, "server"@), "source.server"@) {
            Err(e) => Err(e),
            Ok(s) => match req_str(lookup(s, "command"@), "source.server.command"@) {
                Err(e) => Err(e),
                Ok(command) => match opt_str_array(lookup(s, "args"@), "source.server.args"@) {
                    Err(e) => Err(e),
                    Ok(args) => match opt_str(lookup(s, "cwd"@), "source.server.cwd"@) {
                        Err(e) => Err(e),
                        Ok(cwd) => Ok(Some(ServerView { command, args: or_empty(args), cwd })),
                    },
                },
            },
        }
    }
}

/// The server of an MCP source.
pub fn validate_mcp_server(source: &JsonObject, source_type: &str) -> (r: Result<Option<SkillMcpServer>, ValidationError>)
    ensures
        agrees(r, server_spec(source.view(), source_type@), |x: Option<SkillMcpServer>| server_view(x)),
{
    if !str_eq(source_type, "mcp") {
        return Ok(None);
    }
    let server = match required_object(source.get("server"), "source.server") {
        Err(e) => return Err(e),
        Ok(o) => o,
    };
    let command = match required_string(server.get("command"), "source.server.command") {
        Err(e) => return Err(e),
        Ok(c) => c,
    };
    let args = match optional_string_array(server.get("args"), "source.server.args") {
        Err(e) => return Err(e),
        Ok(Some(a)) => a,
        Ok(None) => {
            let v: Vec<String> = Vec::new();
            proof {
                assert(strings_view(v@) =~= Seq::<Seq<char>>::empty());
            }
            v
        },
    };
    let cwd = match optional_string(server.get("cwd"), "source.server.cwd") {
        Err(e) => return Err(e),
        Ok(c) => c,
    };
    Ok(Some(SkillMcpServer { command, args, cwd }))
}

pub open spec fn graph_spec(src: ObjData, source_type: Seq<char>) -> Result<Option<ObjData>, VErr> {
    if source_type != "graph"@ {
        Ok(None)
    } else {
        match req_obj(lookup(src, "graph"@), "source.graph"@) {
            Err(e) => Err(e),
            Ok(g) => Ok(Some(g)),
        }
    }
}

/// The graph document of a graph source.
pub fn validate_graph_source(source: &JsonObject, source_type: &str) -> (r: Result<Option<JsonObject>, ValidationError>)
    ensures
        agrees(r, graph_spec(source.view(), source_type@), |x: Option<JsonObject>| opt_obj_view(x)),
{
    if !str_eq(source_type, "graph") {
        return Ok(None);
    }
    match required_object(source.get("graph"), "source.graph") {
        Err(e) => Err(e),
        Ok(g) => Ok(Some(g.copy())),
    }
}

pub open spec fn agent_boundary_spec(src: ObjData, source_type: Seq<char>) -> Result<(), VErr> {
    if (source_type == "agent-step"@ || source_type == "harness-hook"@) && (lookup(src, "command"@) is Some
        || lookup(src, "args"@) is Some) {
        Err(invalid(source_type + " sources must not declare source.command or source.args."@))
    } else {
        Ok(())
    }
}

/// Agent steps and harness hooks run no command of their own.
pub fn validate_agent_command_boundary(source: &JsonObject, source_type: &str) -> (r: Result<(), ValidationError>)
    ensures
        agrees(r, agent_boundary_spec(source.view(), source_type@), |x: ()| x),
{
    if (str_eq(source_type, "agent-step") || str_eq(source_type, "harness-hook")) && (source.contains_key("command")
        || source.contains_key("args")) {
        return Err(field_error(source_type, " sources must not declare source.command or source.args."));
    }
    Ok(())
}

// ---------------------------------------------------------------------
// The whole source.
// ---------------------------------------------------------------------

pub struct SourceView {
    pub source_type: SourceKind,
    pub command: Option<Seq<char>>,
    pub args: Seq<Seq<char>>,
    pub cwd: Option<Seq<char>>,
    pub timeout_seconds: Option<u64>,
    pub input_mode: Option<InputMode>,
    pub sandbox: Option<SandboxView>,
    pub server: Option<ServerView>,
    pub catalog_ref: Option<Seq<char>>,
    pub tool: Option<Seq<char>>,
    pub arguments: Option<ObjData>,
    pub agent_card_url: Option<Seq<char>>,
    pub agent_identity: Option<Seq<char>>,
    pub agent: Option<Seq<char>>,
    pub task: Option<Seq<char>>,
    pub hook: Option<Seq<char>>,
    pub outputs: Option<ObjData>,
    pub graph: Option<ObjData>,
    pub raw: ObjData,
}

pub open spec fn source_view(s: SkillSource) -> SourceView {
    SourceView {
        source_type: s.source_type,
        command: opt_seq(s.command),
        args: strings_view(s.args@),
        cwd: opt_seq(s.cwd),
        timeout_seconds: s.timeout_seconds,
        input_mode: s.input_mode,
        sandbox: sandbox_view(s.sandbox),
        server: server_view(s.server),
        catalog_ref: opt_seq(s.catalog_ref),
        tool: opt_seq(s.tool),
        arguments: opt_obj_view(s.arguments),
        agent_card_url: opt_seq(s.agent_card_url),
        agent_identity: opt_seq(s.agent_identity),
        agent: opt_seq(s.agent),
        task: opt_seq(s.task),
        hook: opt_seq(s.hook),
        outputs: opt_obj_view(s.outputs),
        graph: opt_obj_view(s.graph),
        raw: s.raw.view(),
    }
}

/// What the head of a source block settles: its type, arguments, input
/// mode, timeout and kind.
pub struct SourceHead {
    pub kind_name: Seq<char>,
    pub args: Seq<Seq<char>>,
    pub input_mode: Option<InputMode>,
    pub timeout_seconds: Option<u64>,
    pub kind: SourceKind,
}

pub open spec fn source_head_spec(src: ObjData) -> Result<SourceHead, VErr> {
    match req_str(lookup(src, "type"@), "source.type"@) {
        Err(e) => Err(e),
        Ok(t) => match opt_str_array(lookup(src, "args"@), "source.args"@) {
            Err(e) => Err(e),
            Ok(args) => match input_mode_spec(lookup(src, "input_mode"@)) {
                Err(e) => Err(e),
                Ok(input_mode) => match opt_u64(lookup(src, "timeout_seconds"@), "source.timeout_seconds"@) {
                    Err(e) => Err(e),
                    Ok(timeout_seconds) => match (if t == "cli-tool"@ {
                        match req_str(lookup(src, "command"@), "source.command"@) {
                            Err(e) => Err(e),
                            Ok(_) => Ok(()),
                        }
                    } else {
                        Ok(())
                    }) {
                        Err(e) => Err(e),
                        Ok(_) => match agent_boundary_spec(src, t) {
                            Err(e) => Err(e),
                            Ok(_) => match source_kind_spec(t, "source.type"@) {
                                Err(e) => Err(e),
                                Ok(kind) => Ok(SourceHead { kind_name: t, args: or_empty(args), input_mode, timeout_seconds, kind }),
                            },
                        },
                    },
                },
            },
        },
    }
}

/// The source block after its head: every field, in declaration order.
pub open spec fn source_tail_spec(src: ObjData, runx: Option<ObjData>, h: SourceHead) -> Result<SourceView, VErr> {
    let t = h.kind_name;
    match opt_str(lookup(src, "command"@), "source.command"@) {
        Err(e) => Err(e),
        Ok(command) => match opt_str(lookup(src, "cwd"@), "source.cwd"@) {
            Err(e) => Err(e),
            Ok(cwd) => match sandbox_spec(first(lookup(src, "sandbox"@), field_of(runx, "sandbox"@))) {
                Err(e) => Err(e),
                Ok(sandbox) => match server_spec(src, t) {
                    Err(e) => Err(e),
                    Ok(server) => match kind_str(src, "catalog_ref"@, "source.catalog_ref"@, t == "catalog"@) {
                        Err(e) => Err(e),
                        Ok(catalog_ref) => match kind_str(src, "tool"@, "source.tool"@, t == "mcp"@) {
                            Err(e) => Err(e),
                            Ok(tool) => match opt_obj(lookup(src, "arguments"@), "source.arguments"@) {
                                Err(e) => Err(e),
                                Ok(arguments) => match kind_str(src, "agent_card_url"@, "source.agent_card_url"@, t == "a2a"@) {
                                    Err(e) => Err(e),
                                    Ok(agent_card_url) => match opt_str(lookup(src, "agent_identity"@), "source.agent_identity"@) {
                                        Err(e) => Err(e),
                                        Ok(agent_identity) => match kind_str(src, "agent"@, "source.agent"@, t == "agent-step"@) {
                                            Err(e) => Err(e),
                                            Ok(agent) => match kind_str(src, "task"@, "source.task"@, t == "agent-step"@ || t == "a2a"@) {
                                                Err(e) => Err(e),
                                                Ok(task) => match kind_str(src, "hook"@, "source.hook"@, t == "harness-hook"@) {
                                                    Err(e) => Err(e),
                                                    Ok(hook) => match opt_obj(lookup(src, "outputs"@), "source.outputs"@) {
                                                        Err(e) => Err(e),
                                                        Ok(outputs) => match graph_spec(src, t) {
                                                            Err(e) => Err(e),
                                                            Ok(graph) => Ok(SourceView {
                                                                source_type: h.kind,
                                                                command,
                                                                args: h.args,
                                                                cwd,
                                                                timeout_seconds: h.timeout_seconds,
                                                                input_mode: h.input_mode,
                                                                sandbox,
                                                                server,
                                                                catalog_ref,
                                                                tool,
                                                                arguments,
                                                                agent_card_url,
                                                                agent_identity,
                                                                agent,
                                                                task,
                                                                hook,
                                                                outputs,
                                                                graph,
                                                                raw: src,
                                                            }),
                                                        },
                                                    },
                                                },
                                            },
                                        },
                                    },
                                },
                            },
                        },
                    },
                },
            },
        },
    }
}

pub open spec fn source_spec(src: ObjData, runx: Option<ObjData>) -> Result<SourceView, VErr> {
    match source_head_spec(src) {
        Err(e) => Err(e),
        Ok(h) => source_tail_spec(src, runx, h),
    }
}

struct Head {
    kind_name: String,
    args: Vec<String>,
    input_mode: Option<InputMode>,
    timeout_seconds: Option<u64>,
    kind: SourceKind,
}

fn source_head(source: &JsonObject) -> (r: Result<Head, ValidationError>)
    ensures
        agrees(r, source_head_spec(source.view()), |h: Head| SourceHead {
            kind_name: h.kind_name@,
            args: strings_view(h.args@),
            input_mode: h.input_mode,
            timeout_seconds: h.timeout_seconds,
            kind: h.kind,
        }),
{
    let kind_name = match required_string(source.get("type"), "source.type") {
        Err(e) => return Err(e),
        Ok(t) => t,
    };
    let args = match optional_string_array(source.get("args"), "source.args") {
        Err(e) => return Err(e),
        Ok(Some(a)) => a,
        Ok(None) => {
            let v: Vec<String> = Vec::new();
            proof {
                assert(strings_view(v@) =~= Seq::<Seq<char>>::empty());
            }
            v
        },
    };
    let input_mode = match optional_input_mode(source.get("input_mode")) {
        Err(e) => return Err(e),
        Ok(m) => m,
    };
    let timeout_seconds = match optional_u64(source.get("timeout_seconds"), "source.timeout_seconds") {
        Err(e) => return Err(e),
        Ok(t) => t,
    };
    if str_eq(kind_name.as_str(), "cli-tool") {
        match required_string(source.get("command"), "source.command") {
            Err(e) => return Err(e),
            Ok(_) => {},
        }
    }
    match validate_agent_command_boundary(source, kind_name.as_str()) {
        Err(e) => return Err(e),
        Ok(()) => {},
    }
    let kind = match parse_source_kind(kind_name.as_str(), "source.type") {
        Err(e) => return Err(e),
        Ok(k) => k,
    };
    Ok(Head { kind_name, args, input_mode, timeout_seconds, kind })
}

/// Validates a source block against the optional `runx` block, whose
/// `sandbox` stands in for a missing source sandbox.
pub fn validate_source(source: &JsonObject, runx: Option<&JsonObject>) -> (r: Result<SkillSource, ValidationError>)
    ensures
        agrees(r, source_spec(source.view(), match runx {
            Some(o) => Some(o.view()),
            None => None,
        }), |x: SkillSource| source_view(x)),
{
    let h = match source_head(source) {
        Err(e) => return Err(e),
        Ok(h) => h,
    };
    let t = h.kind_name.as_str();
    let command = match optional_string(source.get("command"), "source.command") {
        Err(e) => return Err(e),
        Ok(x) => x,
    };
    let cwd = match optional_string(source.get("cwd"), "source.cwd") {
        Err(e) => return Err(e),
        Ok(x) => x,
    };
    let sandbox = match validate_sandbox(first_value(source.get("sandbox"), field_value(runx, "sandbox"))) {
        Err(e) => return Err(e),
        Ok(x) => x,
    };
    let server = match validate_mcp_server(source, t) {
        Err(e) => return Err(e),
        Ok(x) => x,
    };
    let catalog_ref = match kind_string(source, "catalog_ref", "source.catalog_ref", str_eq(t, "catalog")) {
        Err(e) => return Err(e),
        Ok(x) => x,
    };
    let tool = match kind_string(source, "tool", "source.tool", str_eq(t, "mcp")) {
        Err(e) => return Err(e),
        Ok(x) => x,
    };
    let arguments = match optional_object(source.get("arguments"), "source.arguments") {
        Err(e) => return Err(e),
        Ok(x) => x,
    };
    let agent_card_url = match kind_string(source, "agent_card_url", "source.agent_card_url", str_eq(t, "a2a")) {
        Err(e) => return Err(e),
        Ok(x) => x,
    };
    let agent_identity = match optional_string(source.get("agent_identity"), "source.agent_identity") {
        Err(e) => return Err(e),
        Ok(x) => x,
    };
    let agent = match kind_string(source, "agent", "source.agent", str_eq(t, "agent-step")) {
        Err(e) => return Err(e),
        Ok(x) => x,
    };
    let task = match kind_string(source, "task", "source.task", str_eq(t, "agent-step") || str_eq(t, "a2a")) {
        Err(e) => return Err(e),
        Ok(x) => x,
    };
    let hook = match kind_string(source, "hook", "source.hook", str_eq(t, "harness-hook")) {
        Err(e) => return Err(e),
        Ok(x) => x,
    };
    let outputs = match optional_object(source.get("outputs"), "source.outputs") {
        Err(e) => return Err(e),
        Ok(x) => x,
    };
    let graph = match validate_graph_source(source, t) {
        Err(e) => return Err(e),
        Ok(x) => x,
    };
    Ok(SkillSource {
        source_type: h.kind,
        command,
        args: h.args,
        cwd,
        timeout_seconds: h.timeout_seconds,
        input_mode: h.input_mode,
        sandbox,
        server,
        catalog_ref,
        tool,
        arguments,
        agent_card_url,
        agent_identity,
        agent,
        task,
        hook,
        outputs,
        graph,
        raw: source.copy(),
    })
}

/// The source of a skill, as its callers read it.
pub fn validate_skill_source(source: &JsonObject, runx: Option<&JsonObject>) -> (r: Result<SkillSource, ValidationError>)
    ensures
        agrees(r, source_spec(source.view(), match runx {
            Some(o) => Some(o.view()),
            None => None,
        }), |x: SkillSource| source_view(x)),
{
    validate_source(source, runx)
}

} // verus!
