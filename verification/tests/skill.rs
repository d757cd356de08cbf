use runx::json::{JsonObject, JsonValue};
use runx::skill::fields::ValidationError;
use runx::skill::source::validate_sandbox;
use runx::skill::types::{CwdPolicy, RawSkillIr, SandboxProfile, SourceKind, ValidateSkillOptions};
use runx::skill::validate::{validate_skill, validate_skill_with_options};

fn obj(entries: Vec<(&str, JsonValue)>) -> JsonObject {
    JsonObject {
        entries: entries.into_iter().map(|(k, v)| (k.to_owned(), v)).collect(),
    }
}

fn s(v: &str) -> JsonValue {
    JsonValue::String(v.to_owned())
}

fn raw(frontmatter: JsonObject) -> RawSkillIr {
    RawSkillIr {
        frontmatter,
        raw_frontmatter: String::new(),
        body: "Body.".to_owned(),
    }
}

#[test]
fn a_named_skill_defaults_to_an_agent_source() {
    let skill = validate_skill(raw(obj(vec![("name", s("echo")), ("description", s("Echoes."))]))).unwrap();
    assert_eq!(skill.name, "echo");
    assert_eq!(skill.description.as_deref(), Some("Echoes."));
    assert_eq!(skill.body, "Body.");
    assert_eq!(skill.source.source_type, SourceKind::Agent);
    assert!(skill.inputs.is_empty());
}

#[test]
fn the_name_is_required() {
    let error = validate_skill(raw(JsonObject::new())).unwrap_err();
    assert_eq!(error, ValidationError::MissingField { field: "name".to_owned() });
    assert_eq!(error.message(), "name is required.");
    let error = validate_skill(raw(obj(vec![("name", s(""))]))).unwrap_err();
    assert_eq!(error, ValidationError::MissingField { field: "name".to_owned() });
}

#[test]
fn runx_metadata_must_be_an_object_unless_lenient() {
    let doc = obj(vec![("name", s("x")), ("runx", s("bad"))]);
    let error = validate_skill(raw(doc.clone())).unwrap_err();
    assert_eq!(
        error.message(),
        "runx: runx must be an object when present."
    );
    assert!(validate_skill_with_options(raw(doc), ValidateSkillOptions::lenient()).is_ok());
}

#[test]
fn command_line_sources_need_a_command() {
    let doc = obj(vec![
        ("name", s("x")),
        ("source", JsonValue::Object(obj(vec![("type", s("cli-tool"))]))),
    ]);
    assert_eq!(
        validate_skill(raw(doc)).unwrap_err(),
        ValidationError::MissingField { field: "source.command".to_owned() }
    );
    let doc = obj(vec![
        ("name", s("x")),
        (
            "source",
            JsonValue::Object(obj(vec![("type", s("cli-tool")), ("command", s("echo"))])),
        ),
    ]);
    let skill = validate_skill(raw(doc)).unwrap();
    assert_eq!(skill.source.source_type, SourceKind::CliTool);
    assert_eq!(skill.source.command.as_deref(), Some("echo"));
}

#[test]
fn mcp_sources_need_a_server_and_a_tool() {
    let server = obj(vec![("command", s("node")), ("args", JsonValue::Array(vec![s("s.js")]))]);
    let doc = obj(vec![
        ("name", s("x")),
        (
            "source",
            JsonValue::Object(obj(vec![
                ("type", s("mcp")),
                ("server", JsonValue::Object(server)),
                ("tool", s("echo")),
            ])),
        ),
    ]);
    let skill = validate_skill(raw(doc)).unwrap();
    let server = skill.source.server.unwrap();
    assert_eq!(server.command, "node");
    assert_eq!(server.args, vec!["s.js".to_owned()]);
    assert_eq!(skill.source.tool.as_deref(), Some("echo"));

    let doc = obj(vec![
        ("name", s("x")),
        ("source", JsonValue::Object(obj(vec![("type", s("mcp")), ("tool", s("echo"))]))),
    ]);
    assert_eq!(
        validate_skill(raw(doc)).unwrap_err(),
        ValidationError::InvalidField {
            field: "skill".to_owned(),
            message: "source.server is required.".to_owned()
        }
    );
}

#[test]
fn unknown_source_types_are_refused() {
    let doc = obj(vec![
        ("name", s("x")),
        ("source", JsonValue::Object(obj(vec![("type", s("teleport"))]))),
    ]);
    assert!(validate_skill(raw(doc)).is_err());
}

#[test]
fn inputs_are_kept_in_name_order() {
    let inputs = obj(vec![
        (
            "topic",
            JsonValue::Object(obj(vec![("type", s("string")), ("required", JsonValue::Bool(true))])),
        ),
        ("limit", JsonValue::Object(obj(vec![("type", s("number"))]))),
    ]);
    let doc = obj(vec![("name", s("x")), ("inputs", JsonValue::Object(inputs))]);
    let skill = validate_skill(raw(doc)).unwrap();
    assert_eq!(skill.inputs.len(), 2);
    assert_eq!(skill.inputs[0].0, "limit");
    assert_eq!(skill.inputs[0].1.input_type, "number");
    assert!(!skill.inputs[0].1.required);
    assert_eq!(skill.inputs[1].0, "topic");
    assert!(skill.inputs[1].1.required);
}

#[test]
fn a_repeated_input_name_is_kept_once_with_its_last_declaration() {
    let inputs = obj(vec![
        ("b", JsonValue::Object(obj(vec![("type", s("string"))]))),
        ("a", JsonValue::Object(obj(vec![("type", s("string"))]))),
        ("b", JsonValue::Object(obj(vec![("type", s("number"))]))),
    ]);
    let doc = obj(vec![("name", s("x")), ("inputs", JsonValue::Object(inputs))]);
    let skill = validate_skill(raw(doc)).unwrap();
    assert_eq!(skill.inputs.len(), 2);
    assert_eq!(skill.inputs[0].0, "a");
    assert_eq!(skill.inputs[1].0, "b");
    assert_eq!(skill.inputs[1].1.input_type, "number");
}

#[test]
fn a_sandbox_declaration_is_read_with_its_defaults() {
    let declared = JsonValue::Object(obj(vec![("profile", s("readonly"))]));
    let sandbox = validate_sandbox(Some(&declared)).unwrap().unwrap();
    assert_eq!(sandbox.profile, SandboxProfile::Readonly);
    assert_eq!(sandbox.cwd_policy, Some(CwdPolicy::SkillDirectory));
    assert_eq!(sandbox.network, Some(false));
    assert_eq!(sandbox.require_enforcement, Some(false));
    assert_eq!(sandbox.approved_escalation, None);
    let declared = JsonValue::Object(obj(vec![
        ("profile", s("workspace-write")),
        ("cwd_policy", s("workspace")),
        ("network", JsonValue::Bool(true)),
        ("require_enforcement", JsonValue::Bool(true)),
    ]));
    let sandbox = validate_sandbox(Some(&declared)).unwrap().unwrap();
    assert_eq!(sandbox.cwd_policy, Some(CwdPolicy::Workspace));
    assert_eq!(sandbox.network, Some(true));
    assert_eq!(sandbox.require_enforcement, Some(true));
    assert_eq!(validate_sandbox(None).unwrap(), None);
}

#[test]
fn plain_validation_is_strict_validation() {
    let accepted = obj(vec![("name", s("echo")), ("description", s("Echoes."))]);
    assert_eq!(
        validate_skill(raw(accepted.clone())),
        validate_skill_with_options(raw(accepted), ValidateSkillOptions::strict())
    );
    let refused = obj(vec![("name", s("x")), ("runx", s("bad"))]);
    assert_eq!(
        validate_skill(raw(refused.clone())),
        validate_skill_with_options(raw(refused), ValidateSkillOptions::strict())
    );
}
