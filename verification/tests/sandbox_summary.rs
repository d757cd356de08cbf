use runx::json::{JsonObject, JsonValue};
use runx::sandbox_summary::{
    AuthorityProofApproval, AuthorityProofSandboxDeclaration, non_empty_option, optional_string,
    summarize_authority_sandbox,
};

fn obj(entries: Vec<(&str, JsonValue)>) -> JsonObject {
    JsonObject {
        entries: entries.into_iter().map(|(k, v)| (k.to_owned(), v)).collect(),
    }
}

fn s(v: &str) -> JsonValue {
    JsonValue::String(v.to_owned())
}

fn declaration() -> AuthorityProofSandboxDeclaration {
    AuthorityProofSandboxDeclaration {
        profile: Some("  workspace-write ".to_owned()),
        cwd_policy: Some("workspace".to_owned()),
        require_enforcement: Some(true),
        network: Some(false),
    }
}

#[test]
fn no_profile_means_no_summary() {
    assert!(summarize_authority_sandbox(None, None, None).is_none());
    let blank = AuthorityProofSandboxDeclaration {
        profile: Some("   ".to_owned()),
        cwd_policy: None,
        require_enforcement: None,
        network: None,
    };
    assert!(summarize_authority_sandbox(None, Some(&blank), None).is_none());
}

#[test]
fn declaration_and_approval_fill_in() {
    let summary = summarize_authority_sandbox(
        None,
        Some(&declaration()),
        Some(&AuthorityProofApproval { approved: true }),
    )
    .unwrap();
    assert_eq!(summary.profile, "workspace-write");
    assert_eq!(summary.cwd_policy.as_deref(), Some("workspace"));
    assert_eq!(summary.require_enforcement, Some(true));
    let network = summary.network.unwrap();
    assert_eq!(network.declared, Some(false));
    assert_eq!(network.enforcement, None);
    assert!(summary.filesystem.is_none());
    assert!(summary.runtime.is_none());
    assert_eq!(summary.approval_required, Some(false));
    assert_eq!(summary.approval_approved, Some(true));
}

#[test]
fn metadata_record_comes_first() {
    let metadata = JsonValue::Object(obj(vec![
        ("profile", s(" unrestricted-local-dev ")),
        ("cwd_policy", s("  ")),
        ("network", JsonValue::Object(obj(vec![("enforcement", s("host-ambient"))]))),
        ("filesystem", JsonValue::Object(obj(vec![("private_tmp", JsonValue::Bool(false))]))),
        ("runtime", JsonValue::Object(obj(vec![("enforcer", s("direct"))]))),
        ("approval", JsonValue::Object(obj(vec![("approved", JsonValue::Bool(false))]))),
    ]));
    let summary = summarize_authority_sandbox(
        Some(&metadata),
        Some(&declaration()),
        Some(&AuthorityProofApproval { approved: true }),
    )
    .unwrap();
    assert_eq!(summary.profile, "unrestricted-local-dev");
    assert_eq!(summary.cwd_policy.as_deref(), Some("workspace"));
    let network = summary.network.unwrap();
    assert_eq!(network.declared, Some(false));
    assert_eq!(network.enforcement.as_deref(), Some("host-ambient"));
    let filesystem = summary.filesystem.unwrap();
    assert_eq!(filesystem.private_tmp, Some(false));
    assert_eq!(filesystem.enforcement, None);
    assert_eq!(summary.runtime.unwrap().enforcer.as_deref(), Some("direct"));
    assert_eq!(summary.approval_required, Some(true));
    assert_eq!(summary.approval_approved, Some(false));
}

#[test]
fn empty_sections_are_dropped() {
    let metadata = JsonValue::Object(obj(vec![
        ("profile", s("readonly")),
        ("filesystem", JsonValue::Object(JsonObject::new())),
        ("runtime", JsonValue::Object(obj(vec![("reason", s(" "))]))),
    ]));
    let summary = summarize_authority_sandbox(Some(&metadata), None, None).unwrap();
    assert!(summary.network.is_none());
    assert!(summary.filesystem.is_none());
    assert!(summary.runtime.is_none());
    assert_eq!(summary.approval_approved, None);
}

#[test]
fn optional_texts() {
    assert_eq!(optional_string(Some("  a ")), Some("a".to_owned()));
    assert_eq!(optional_string(Some("   ")), None);
    assert_eq!(optional_string(None), None);
    assert_eq!(non_empty_option(Some(" a ".to_owned())), Some(" a ".to_owned()));
    assert_eq!(non_empty_option(Some("\t".to_owned())), None);
}
