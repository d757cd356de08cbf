use runx::json::{JsonObject, JsonValue};
use runx::json_text::render_json;
use runx::mcp::sandbox::{
    mcp_process_sandbox_metadata, mcp_sandbox_env_metadata, mcp_sandbox_metadata_config,
    mcp_sandbox_runtime_metadata, metadata_for, sha256_hex,
};
use runx::skill::types::{CwdPolicy, SandboxProfile, SkillMcpServer, SkillSandbox};

fn sandbox(profile: SandboxProfile, allowlist: Option<Vec<&str>>, approved: Option<bool>) -> SkillSandbox {
    SkillSandbox {
        profile,
        cwd_policy: Some(CwdPolicy::Workspace),
        env_allowlist: allowlist.map(|a| a.into_iter().map(str::to_owned).collect()),
        network: Some(true),
        writable_paths: vec!["out".to_owned()],
        require_enforcement: None,
        approved_escalation: approved,
        raw: JsonObject::new(),
    }
}

fn render(object: JsonObject) -> String {
    render_json(&JsonValue::Object(object))
}

#[test]
fn sha256_is_lower_case_hex() {
    assert_eq!(
        sha256_hex(b""),
        "e3b0c44298fc1c149afbf4c8996fb92427ae41e4649b934ca495991b7852b855"
    );
    assert_eq!(
        sha256_hex(b"node"),
        "545ea538461003efdc8c81c244531b003f6f26cfccf6c0073b3239fdedf49446"
    );
}

#[test]
fn metadata_hashes_the_server_command_and_arguments() {
    let server = SkillMcpServer {
        command: "node".to_owned(),
        args: vec!["a".to_owned(), "b".to_owned()],
        cwd: None,
    };
    let metadata = metadata_for(&Some("echo".to_owned()), Some(&server), None);
    assert_eq!(
        render(metadata),
        "{\"mcp\":{\"server_args_hash\":\"0473ef2dc0d324ab659d3580c1134e9d812035905c4781fdd6d529b0c6860e13\",\"server_command_hash\":\"545ea538461003efdc8c81c244531b003f6f26cfccf6c0073b3239fdedf49446\",\"tool\":\"echo\"}}"
    );
}

#[test]
fn metadata_without_server_hashes_empty_command_and_null_args() {
    let mut sandbox = JsonObject::new();
    sandbox.insert("profile".to_owned(), JsonValue::String("readonly".to_owned()));
    let metadata = metadata_for(&None, None, Some(sandbox));
    assert_eq!(
        render(metadata),
        "{\"mcp\":{\"server_args_hash\":\"74234e98afe7498fb5daf1f36ac2d78acc339464f950703b8c019892f982b90b\",\"server_command_hash\":\"e3b0c44298fc1c149afbf4c8996fb92427ae41e4649b934ca495991b7852b855\",\"tool\":\"\"},\"sandbox\":{\"profile\":\"readonly\"}}"
    );
    let metadata = metadata_for(&None, None, Some(JsonObject::new()));
    assert_eq!(metadata.entries.len(), 1);
}

#[test]
fn config_defaults_without_a_declared_sandbox() {
    let config = mcp_sandbox_metadata_config(None);
    assert_eq!(config.profile, "readonly");
    assert_eq!(config.cwd_policy, "skill-directory");
    assert!(config.env_allowlist.is_none());
    assert!(!config.approved_escalation && !config.require_enforcement && !config.network);
    assert!(config.writable_paths.is_empty());
    assert!(!config.inherited_ambient);
}

#[test]
fn approved_unrestricted_profile_inherits_the_host_environment() {
    let declared = sandbox(SandboxProfile::UnrestrictedLocalDev, None, Some(true));
    let config = mcp_sandbox_metadata_config(Some(&declared));
    assert!(config.inherited_ambient);
    assert_eq!(
        render(mcp_sandbox_env_metadata(config.env_allowlist.as_ref(), config.inherited_ambient)),
        "{\"mode\":\"ambient-inherited\"}"
    );
    let declared = sandbox(SandboxProfile::UnrestrictedLocalDev, Some(vec!["HOME"]), Some(true));
    let config = mcp_sandbox_metadata_config(Some(&declared));
    assert!(!config.inherited_ambient);
    assert_eq!(
        render(mcp_sandbox_env_metadata(config.env_allowlist.as_ref(), config.inherited_ambient)),
        "{\"allowlist\":[\"HOME\"],\"mode\":\"allowlist\"}"
    );
}

#[test]
fn default_allowlist_is_recorded() {
    assert_eq!(
        render(mcp_sandbox_env_metadata(None, false)),
        "{\"allowlist\":[\"PATH\",\"HOME\",\"TMPDIR\",\"TMP\",\"TEMP\",\"SystemRoot\",\"WINDIR\",\"COMSPEC\",\"PATHEXT\"],\"mode\":\"default-allowlist\"}"
    );
}

#[test]
fn runtime_metadata_names_the_enforcer() {
    assert_eq!(
        render(mcp_sandbox_runtime_metadata("unrestricted-local-dev")),
        "{\"enforcer\":\"direct\"}"
    );
    assert_eq!(
        render(mcp_sandbox_runtime_metadata("readonly")),
        "{\"enforcer\":\"declared-policy-only\",\"reason\":\"local sandbox profile 'readonly' requires Linux bubblewrap support for filesystem and network enforcement\"}"
    );
}

#[test]
fn process_sandbox_metadata_records_every_section() {
    let declared = sandbox(SandboxProfile::WorkspaceWrite, None, None);
    let metadata = mcp_process_sandbox_metadata(Some(&declared), "/work/skill", "/work");
    assert_eq!(
        render(metadata),
        "{\"approval\":{\"approved\":false,\"required\":false},\"cwd\":\"/work/skill\",\"cwd_policy\":\"workspace\",\"env\":{\"allowlist\":[\"PATH\",\"HOME\",\"TMPDIR\",\"TMP\",\"TEMP\",\"SystemRoot\",\"WINDIR\",\"COMSPEC\",\"PATHEXT\"],\"mode\":\"default-allowlist\"},\"filesystem\":{\"enforcement\":\"not-enforced-local\",\"private_tmp\":false,\"readonly_paths\":true,\"writable_paths_enforced\":false},\"network\":{\"declared\":true,\"enforcement\":\"not-enforced-local\"},\"profile\":\"workspace-write\",\"require_enforcement\":false,\"runtime\":{\"enforcer\":\"declared-policy-only\",\"reason\":\"local sandbox profile 'workspace-write' requires Linux bubblewrap support for filesystem and network enforcement\"},\"workspace_root\":\"/work\",\"writable_paths\":[\"out\"]}"
    );
}
