use runx::adapter::{InvocationStatus, RuntimeError, SkillInvocation};
use runx::contracts::external_adapter::{
    EXTERNAL_ADAPTER_PROTOCOL_VERSION, ExternalAdapterInvocation, ExternalAdapterManifest, ExternalAdapterResponse,
    ExternalAdapterSandboxIntent, ExternalAdapterStatus, ExternalAdapterTimeouts, ExternalAdapterTransport,
    ExternalAdapterTransportKind,
};
use runx::external_adapter::{
    ExternalAdapterManifestResolver, ExternalAdapterProcessOutcome, ExternalAdapterSkillAdapter,
    ExternalAdapterSkillAdapterError, ExternalAdapterSupervisor, ExternalAdapterSupervisorError, MANIFEST_SCHEMA,
    RESPONSE_SCHEMA, invocation_env, invoke_external_adapter_skill, skill_invocation_contract,
};
use runx::json::{JsonNumber, JsonObject, JsonValue};
use runx::reference::ReferenceType;
use runx::skill::types::{SkillSource, SourceKind};

fn obj(entries: Vec<(&str, JsonValue)>) -> JsonObject {
    JsonObject { entries: entries.into_iter().map(|(k, v)| (k.to_owned(), v)).collect() }
}

fn source(kind: SourceKind, raw: JsonObject) -> SkillSource {
    SkillSource {
        source_type: kind,
        command: None,
        args: Vec::new(),
        cwd: Some("work".to_owned()),
        timeout_seconds: None,
        input_mode: None,
        sandbox: None,
        server: None,
        catalog_ref: None,
        tool: None,
        arguments: None,
        agent_card_url: None,
        agent_identity: None,
        agent: None,
        task: None,
        hook: None,
        outputs: None,
        graph: None,
        raw,
    }
}

fn request(kind: SourceKind, raw: JsonObject) -> SkillInvocation {
    SkillInvocation {
        skill_name: "Acme Echo".to_owned(),
        source: source(kind, raw),
        inputs: obj(vec![("topic", JsonValue::String("rust".to_owned()))]),
        resolved_inputs: JsonObject::new(),
        skill_directory: "/skills/echo".to_owned(),
        env: vec![("RUNX_RECEIPT_DIR".to_owned(), "/receipts".to_owned())],
    }
}

fn manifest() -> ExternalAdapterManifest {
    ExternalAdapterManifest {
        schema: MANIFEST_SCHEMA.to_owned(),
        protocol_version: EXTERNAL_ADAPTER_PROTOCOL_VERSION.to_owned(),
        adapter_id: "acme.echo".to_owned(),
        name: "echo".to_owned(),
        version: "1.0.0".to_owned(),
        supported_source_types: vec!["external-adapter".to_owned()],
        transport: ExternalAdapterTransport {
            kind: ExternalAdapterTransportKind::Process,
            command: Some("echo-adapter".to_owned()),
            args: None,
            endpoint: None,
        },
        timeouts: ExternalAdapterTimeouts { startup_ms: 100, invocation_ms: 2500 },
        credential_needs: None,
        sandbox_intent: ExternalAdapterSandboxIntent {
            profile: "readonly".to_owned(),
            network: false,
            cwd_policy: "skill-directory".to_owned(),
            writable_paths: None,
        },
        metadata: None,
    }
}

fn response(invocation_id: &str) -> ExternalAdapterResponse {
    ExternalAdapterResponse {
        schema: RESPONSE_SCHEMA.to_owned(),
        protocol_version: EXTERNAL_ADAPTER_PROTOCOL_VERSION.to_owned(),
        invocation_id: invocation_id.to_owned(),
        adapter_id: "acme.echo".to_owned(),
        status: ExternalAdapterStatus::Completed,
        stdout: Some("hi".to_owned()),
        stderr: None,
        exit_code: Some(Some(0)),
        output: None,
        artifacts: None,
        errors: None,
        telemetry: None,
        metadata: Some(obj(vec![("k", JsonValue::Bool(true)), ("k", JsonValue::Bool(false))])),
        observed_at: "2026-01-01T00:00:00Z".to_owned(),
    }
}

#[test]
fn invocations_derive_ids_from_the_skill_name() {
    let inv = skill_invocation_contract(
        "Acme Echo",
        &request(SourceKind::ExternalAdapter, JsonObject::new()).source,
        &obj(vec![("topic", JsonValue::String("rust".to_owned()))]),
        &JsonObject::new(),
        "/skills/echo",
        &vec![("RUNX_RECEIPT_DIR".to_owned(), "/receipts".to_owned())],
        &manifest(),
    )
    .expect("an invocation");
    assert_eq!(inv.invocation_id, "external_adapter.Acme_Echo.invoke");
    assert_eq!(inv.run_id, "run_Acme_Echo");
    assert_eq!(inv.step_id, "Acme_Echo");
    assert_eq!(inv.skill_ref, "Acme Echo");
    assert_eq!(inv.source_type, "external-adapter");
    assert_eq!(inv.adapter_id, "acme.echo");
    assert_eq!(inv.harness_ref.reference_type, ReferenceType::Harness);
    assert_eq!(inv.harness_ref.uri, "runx:harness:run_Acme_Echo");
    assert_eq!(inv.host_ref.uri, "runx:host:runtime");
    assert_eq!(inv.cwd.as_deref(), Some("/skills/echo/work"));
    assert_eq!(inv.receipt_dir.as_deref(), Some("/receipts"));
    assert_eq!(inv.resolved_inputs, None);
    assert_eq!(inv.env, Some(obj(vec![("RUNX_RECEIPT_DIR", JsonValue::String("/receipts".to_owned()))])));
}

#[test]
fn source_metadata_overrides_ids_and_must_be_strings() {
    let r = request(
        SourceKind::ExternalAdapter,
        obj(vec![("run_id", JsonValue::String("r1".to_owned())), ("skill_ref", JsonValue::String("acme/echo".to_owned()))]),
    );
    let inv = skill_invocation_contract(&r.skill_name, &r.source, &r.inputs, &r.resolved_inputs, &r.skill_directory, &r.env, &manifest())
        .expect("an invocation");
    assert_eq!(inv.run_id, "r1");
    assert_eq!(inv.harness_ref.uri, "runx:harness:r1");
    assert_eq!(inv.skill_ref, "acme/echo");
    let bad = request(SourceKind::ExternalAdapter, obj(vec![("step_id", JsonValue::Number(JsonNumber::U64(5)))]));
    let err = skill_invocation_contract(&bad.skill_name, &bad.source, &bad.inputs, &bad.resolved_inputs, &bad.skill_directory, &bad.env, &manifest())
        .err();
    assert_eq!(err, Some(ExternalAdapterSkillAdapterError::InvalidSourceMetadata { field: "step_id" }));
    assert_eq!(invocation_env(&Vec::new()), None);
}

#[test]
fn error_messages_name_the_failure() {
    assert_eq!(
        ExternalAdapterSupervisorError::ResponseTooLarge { limit_bytes: 1048576 }.message(),
        "external adapter process response exceeded 1048576 bytes"
    );
    assert_eq!(
        ExternalAdapterSupervisorError::UnsupportedTransport { kind: ExternalAdapterTransportKind::Http }.message(),
        "external adapter manifest uses unsupported transport 'Http'"
    );
    assert_eq!(
        ExternalAdapterSupervisorError::ResponseMismatch {
            field: "adapter_id",
            expected: "a".to_owned(),
            actual: "b".to_owned()
        }
        .message(),
        "external adapter response adapter_id was 'b', expected 'a'"
    );
    assert_eq!(
        ExternalAdapterSkillAdapterError::InvalidSourceMetadata { field: "run_id" }.message(),
        "external adapter source metadata 'run_id' must be a string when present"
    );
    assert_eq!(
        ExternalAdapterSkillAdapterError::Supervisor(ExternalAdapterSupervisorError::EmptyResponse).message(),
        "external adapter process returned no stdout response"
    );
}

struct FixedManifest;

impl ExternalAdapterManifestResolver for FixedManifest {
    fn resolve_manifest(&self, _request: &SkillInvocation) -> Result<ExternalAdapterManifest, ExternalAdapterSkillAdapterError> {
        Ok(manifest())
    }
}

struct Answering(bool);

impl ExternalAdapterSupervisor for Answering {
    fn invoke_external_adapter(
        &self,
        _manifest: &ExternalAdapterManifest,
        invocation: &ExternalAdapterInvocation,
    ) -> Result<ExternalAdapterProcessOutcome, ExternalAdapterSupervisorError> {
        if self.0 {
            Ok(ExternalAdapterProcessOutcome {
                response: response(&invocation.invocation_id),
                process_exit_code: Some(0),
                duration_ms: 12,
            })
        } else {
            Err(ExternalAdapterSupervisorError::EmptyResponse)
        }
    }
}

#[test]
fn runs_read_the_outcome_of_the_supervised_call() {
    let out = invoke_external_adapter_skill(&request(SourceKind::ExternalAdapter, JsonObject::new()), &FixedManifest, &Answering(true))
        .expect("a run");
    assert_eq!(out.status, InvocationStatus::Success);
    assert_eq!(out.stdout, "hi");
    assert_eq!(out.duration_ms, 12);
    assert_eq!(out.metadata.get("k"), Some(&JsonValue::Bool(false)));
    assert_eq!(out.metadata.get("adapter_id"), Some(&JsonValue::String("acme.echo".to_owned())));
}

#[test]
fn the_adapter_refuses_other_sources_and_reports_failures() {
    let adapter = ExternalAdapterSkillAdapter::new(FixedManifest, Answering(false));
    assert_eq!(adapter.adapter_type(), "external-adapter");
    assert_eq!(
        adapter.invoke(request(SourceKind::CliTool, JsonObject::new())).err(),
        Some(RuntimeError::UnsupportedAdapter { adapter_type: "cli-tool".to_owned() })
    );
    assert_eq!(
        adapter.invoke(request(SourceKind::ExternalAdapter, JsonObject::new())).err(),
        Some(RuntimeError::SkillFailed {
            skill_name: "Acme Echo".to_owned(),
            message: "external adapter process returned no stdout response".to_owned(),
        })
    );
}

struct FailingRun;

impl ExternalAdapterSupervisor for FailingRun {
    fn invoke_external_adapter(
        &self,
        _manifest: &ExternalAdapterManifest,
        invocation: &ExternalAdapterInvocation,
    ) -> Result<ExternalAdapterProcessOutcome, ExternalAdapterSupervisorError> {
        let mut response = response(&invocation.invocation_id);
        response.status = ExternalAdapterStatus::Failed;
        response.stdout = None;
        response.output = Some(obj(vec![("n", JsonValue::Number(JsonNumber::U64(1)))]));
        response.stderr = Some("boom".to_owned());
        response.exit_code = Some(Some(3));
        Ok(ExternalAdapterProcessOutcome { response, process_exit_code: Some(3), duration_ms: 7 })
    }
}

#[test]
fn a_failed_run_keeps_its_output_stderr_and_exit_code() {
    let out = invoke_external_adapter_skill(&request(SourceKind::ExternalAdapter, JsonObject::new()), &FixedManifest, &FailingRun)
        .expect("a run");
    assert_eq!(out.status, InvocationStatus::Failure);
    assert_eq!(out.stdout, "{\"n\":1}");
    assert_eq!(out.stderr, "boom");
    assert_eq!(out.exit_code, Some(3));
    assert_eq!(out.duration_ms, 7);
}
