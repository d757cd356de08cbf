use runx::registry::{
    InstallLocalSkillResult, InstallStatus, LocalRegistrySourceKind, RegistryAction, RegistryPaths,
    RegistryPlan, RegistryTarget, TrustTier, canonical_remote_registry_url, digest_label,
    install_run_command, is_remote_registry_url, not_found, registry_source_description,
    render_install, resolve_registry_target, usage_error,
};

fn install_result() -> InstallLocalSkillResult {
    InstallLocalSkillResult {
        status: InstallStatus::Installed,
        destination: "/tmp/runx/skills/acme/echo/SKILL.md".to_owned(),
        skill_name: "echo".to_owned(),
        source: "local".to_owned(),
        source_label: "local registry".to_owned(),
        skill_id: Some("acme/echo".to_owned()),
        version: Some("1.2.3".to_owned()),
        digest: "sha256:abc".to_owned(),
        profile_digest: None,
        profile_state_path: None,
        runner_names: Vec::new(),
        trust_tier: Some(TrustTier::Community),
    }
}

#[test]
fn registry_install_render_shows_direct_skill_run_command() {
    let rendered = render_install("local", "acme/echo@1.2.3", &install_result(), None);

    assert!(rendered.contains("next             runx skill acme/echo@1.2.3"));
}

#[test]
fn install_render_lists_every_field() {
    let rendered = render_install("local", "acme/echo@1.2.3", &install_result(), None);
    assert_eq!(
        rendered,
        "\n  registry install acme/echo@1.2.3\n  source           local\n  status           installed\n  skill            acme/echo\n  version          1.2.3\n  digest           sha256:abc\n  trust            community\n  signed           no\n  destination      /tmp/runx/skills/acme/echo/SKILL.md\n  next             runx skill acme/echo@1.2.3\n\n"
    );
}

#[test]
fn install_run_command_falls_back_to_skill_name() {
    let mut result = install_result();
    result.version = None;
    assert_eq!(install_run_command(&result), "runx skill echo");
}

#[test]
fn digest_label_adds_missing_prefix_once() {
    assert_eq!(digest_label("abc"), "sha256:abc");
    assert_eq!(digest_label("sha256:abc"), "sha256:abc");
}

#[test]
fn canonical_url_drops_credentials_query_fragment_and_trailing_slashes() {
    assert_eq!(
        canonical_remote_registry_url("https://user:pw@registry.example/v1/?token=x#frag"),
        "https://registry.example/v1"
    );
    assert_eq!(canonical_remote_registry_url("https://registry.example/"), "https://registry.example");
    assert_eq!(canonical_remote_registry_url("https://registry.example//"), "https://registry.example/");
    assert_eq!(canonical_remote_registry_url("https://registry.example"), "https://registry.example");
    assert_eq!(canonical_remote_registry_url("registry.example///"), "registry.example");
}

#[test]
fn remote_urls_are_http_or_https() {
    assert!(is_remote_registry_url("https://x"));
    assert!(is_remote_registry_url("http://x"));
    assert!(!is_remote_registry_url("file:///x"));
}

fn plan(registry: Option<&str>, registry_dir: Option<&str>) -> RegistryPlan {
    RegistryPlan {
        action: RegistryAction::Search,
        subject: "echo".to_owned(),
        registry: registry.map(str::to_owned),
        registry_dir: registry_dir.map(str::to_owned),
        version: None,
        expected_digest: None,
        destination: None,
        installation_id: None,
        owner: None,
        profile: None,
        trust_tier: None,
        limit: None,
        upsert: false,
        json: false,
    }
}

fn paths() -> RegistryPaths {
    RegistryPaths {
        registry: Some("/reg".to_owned()),
        registry_dir: Some("/dir".to_owned()),
        env_registry_dir: Some("/envdir".to_owned()),
        home_registry: "/home/u/.runx/registry".to_owned(),
    }
}

#[test]
fn remote_registry_flag_targets_remote() {
    let target = resolve_registry_target(&plan(Some("https://r.example"), None), &Vec::new(), &paths());
    assert!(matches!(target, RegistryTarget::Remote { ref registry_url } if registry_url == "https://r.example"));
    assert_eq!(target.label(), "remote");
    assert_eq!(registry_source_description(&target), "remote https://r.example");
}

#[test]
fn file_registry_flag_targets_file_kind() {
    let env = vec![("RUNX_REGISTRY_URL".to_owned(), "https://up.example".to_owned())];
    let target = resolve_registry_target(&plan(Some("file:///reg"), None), &env, &paths());
    match &target {
        RegistryTarget::Local { registry_path, registry_url, source_kind } => {
            assert_eq!(registry_path, "/reg");
            assert_eq!(registry_url.as_deref(), Some("https://up.example"));
            assert_eq!(*source_kind, LocalRegistrySourceKind::File);
        }
        RegistryTarget::Remote { .. } => panic!("expected a local registry"),
    }
    assert_eq!(target.label(), "file");
}

#[test]
fn default_target_is_home_registry_unless_remote_url_configured() {
    let target = resolve_registry_target(&plan(None, None), &Vec::new(), &paths());
    assert!(matches!(target, RegistryTarget::Local { ref registry_path, .. } if registry_path == "/home/u/.runx/registry"));
    let env = vec![("RUNX_REGISTRY_URL".to_owned(), "https://up.example".to_owned())];
    let target = resolve_registry_target(&plan(None, None), &env, &paths());
    assert!(matches!(target, RegistryTarget::Remote { .. }));
    let env = vec![("RUNX_REGISTRY_DIR".to_owned(), "x".to_owned())];
    let target = resolve_registry_target(&plan(None, None), &env, &paths());
    assert!(matches!(target, RegistryTarget::Local { ref registry_path, .. } if registry_path == "/envdir"));
    let target = resolve_registry_target(&plan(None, Some("d")), &env, &paths());
    assert!(matches!(target, RegistryTarget::Local { ref registry_path, .. } if registry_path == "/dir"));
}

#[test]
fn registry_errors_carry_codes() {
    assert_eq!(usage_error("bad".to_owned()).code(), "invalid_args");
    let e = not_found("acme/x");
    assert_eq!(e.code(), "registry_error");
    assert_eq!(e.into_message(), "registry skill not found: acme/x");
}
