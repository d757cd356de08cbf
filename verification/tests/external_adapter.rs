use runx::adapter::InvocationStatus;
use runx::contracts::external_adapter::{
    EXTERNAL_ADAPTER_PROTOCOL_VERSION, ExternalAdapterInvocation, ExternalAdapterManifest,
    ExternalAdapterResponse, ExternalAdapterSandboxIntent, ExternalAdapterStatus,
    ExternalAdapterTimeouts, ExternalAdapterTransport, ExternalAdapterTransportKind,
};
use runx::external_adapter::{
    CapturedOutput, ExternalAdapterSupervisorError, FrameKind, INVOCATION_SCHEMA, MANIFEST_SCHEMA,
    ProcessExit, RESPONSE_LIMIT_BYTES, RESPONSE_SCHEMA, frame_kind, identifier_segment,
    invocation_cwd, normalize_request_id, process_command, process_env, response_exit_code,
    runtime_status, settle_process_output, trim_ascii_whitespace, validate_invocation_contract,
    validate_response_contract,
};
use runx::json::{JsonNumber, JsonObject, JsonValue};
use runx::reference::{Reference, ReferenceType};

fn reference(t: ReferenceType, uri: &str) -> Reference {
    Reference {
        reference_type: t,
        uri: uri.to_owned(),
        provider: None,
        locator: None,
        label: None,
        observed_at: None,
        proof_kind: None,
    }
}

fn manifest() -> ExternalAdapterManifest {
    ExternalAdapterManifest {
        schema: MANIFEST_SCHEMA.to_owned(),
        protocol_version: EXTERNAL_ADAPTER_PROTOCOL_VERSION.to_owned(),
        adapter_id: "acme.echo".to_owned(),
        name: "echo".to_owned(),
        version: "1.0.0".to_owned(),
        supported_source_types: vec!["external-adapter".to_owned()],
        transport: ExternalAdapterTransport {
            kind: ExternalAdapterTransportKind::Process,
            command: Some("echo-adapter".to_owned()),
            args: None,
            endpoint: None,
        },
        timeouts: ExternalAdapterTimeouts {
            startup_ms: 100,
            invocation_ms: 2500,
        },
        credential_needs: None,
        sandbox_intent: ExternalAdapterSandboxIntent {
            profile: "readonly".to_owned(),
            network: false,
            cwd_policy: "skill-directory".to_owned(),
            writable_paths: None,
        },
        metadata: None,
    }
}

fn invocation() -> ExternalAdapterInvocation {
    ExternalAdapterInvocation {
        schema: INVOCATION_SCHEMA.to_owned(),
        protocol_version: EXTERNAL_ADAPTER_PROTOCOL_VERSION.to_owned(),
        invocation_id: "inv_1".to_owned(),
        adapter_id: "acme.echo".to_owned(),
        run_id: "run_1".to_owned(),
        step_id: "step_1".to_owned(),
        source_type: "external-adapter".to_owned(),
        skill_ref: "acme/echo".to_owned(),
        harness_ref: reference(ReferenceType::Harness, "runx:harness:h1"),
        host_ref: reference(ReferenceType::Host, "runx:host:local"),
        inputs: JsonObject::new(),
        resolved_inputs: None,
        cwd: None,
        receipt_dir: None,
        env: None,
        credential_refs: None,
        metadata: None,
    }
}

fn response() -> ExternalAdapterResponse {
    ExternalAdapterResponse {
        schema: RESPONSE_SCHEMA.to_owned(),
        protocol_version: EXTERNAL_ADAPTER_PROTOCOL_VERSION.to_owned(),
        invocation_id: "inv_1".to_owned(),
        adapter_id: "acme.echo".to_owned(),
        status: ExternalAdapterStatus::Completed,
        stdout: Some("hi".to_owned()),
        stderr: None,
        exit_code: Some(Some(0)),
        output: None,
        artifacts: None,
        errors: None,
        telemetry: None,
        metadata: None,
        observed_at: "2026-01-01T00:00:00Z".to_owned(),
    }
}

#[test]
fn matching_contract_is_accepted() {
    assert_eq!(validate_invocation_contract(&manifest(), &invocation()), Ok(()));
    assert_eq!(process_command(&manifest()), Ok("echo-adapter"));
}

#[test]
fn contract_breaches_are_reported_in_order() {
    let mut m = manifest();
    let mut i = invocation();
    m.adapter_id = "other".to_owned();
    i.source_type = "mcp".to_owned();
    assert!(matches!(
        validate_invocation_contract(&m, &i),
        Err(ExternalAdapterSupervisorError::AdapterIdMismatch { .. })
    ));
    let mut m = manifest();
    m.timeouts.startup_ms = 0;
    assert_eq!(
        validate_invocation_contract(&m, &invocation()),
        Err(ExternalAdapterSupervisorError::InvalidStartupTimeout)
    );
    let mut m = manifest();
    m.transport.kind = ExternalAdapterTransportKind::Http;
    assert_eq!(
        validate_invocation_contract(&m, &invocation()),
        Err(ExternalAdapterSupervisorError::UnsupportedTransport {
            kind: ExternalAdapterTransportKind::Http
        })
    );
    let mut m = manifest();
    m.schema = "nope".to_owned();
    assert_eq!(
        validate_invocation_contract(&m, &invocation()),
        Err(ExternalAdapterSupervisorError::UnsupportedManifestSchema {
            actual: "nope".to_owned()
        })
    );
}

#[test]
fn blank_and_missing_commands_are_refused() {
    let mut m = manifest();
    m.transport.command = Some("   ".to_owned());
    assert_eq!(process_command(&m), Err(ExternalAdapterSupervisorError::EmptyProcessCommand));
    m.transport.command = None;
    assert_eq!(process_command(&m), Err(ExternalAdapterSupervisorError::MissingProcessCommand));
}

#[test]
fn process_env_takes_string_values_and_the_receipt_dir() {
    let mut i = invocation();
    let mut env = JsonObject::new();
    env.insert("A".to_owned(), JsonValue::String("1".to_owned()));
    env.insert("RUNX_RECEIPT_DIR".to_owned(), JsonValue::String("old".to_owned()));
    i.env = Some(env);
    i.receipt_dir = Some("/tmp/receipts".to_owned());
    assert_eq!(
        process_env(&i),
        Ok(vec![
            ("A".to_owned(), "1".to_owned()),
            ("RUNX_RECEIPT_DIR".to_owned(), "/tmp/receipts".to_owned())
        ])
    );
    let mut env = JsonObject::new();
    env.insert("N".to_owned(), JsonValue::Number(JsonNumber::U64(3)));
    i.env = Some(env);
    assert_eq!(
        process_env(&i),
        Err(ExternalAdapterSupervisorError::InvalidEnvValue { key: "N".to_owned() })
    );
}

#[test]
fn captured_output_stops_at_the_limit() {
    let mut out = CapturedOutput::new();
    out.take_chunk(b"abc");
    assert_eq!(out.bytes, b"abc".to_vec());
    assert!(!out.truncated);
    let big = vec![b'x'; RESPONSE_LIMIT_BYTES];
    out.take_chunk(&big);
    assert_eq!(out.bytes.len(), RESPONSE_LIMIT_BYTES);
    assert!(out.truncated);
    assert_eq!(&out.bytes[..3], b"abc");
}

#[test]
fn trimming_removes_ascii_whitespace_only() {
    assert_eq!(trim_ascii_whitespace(b" \t{\"a\":1}\r\n"), b"{\"a\":1}".to_vec());
    assert_eq!(trim_ascii_whitespace(b" \n "), Vec::<u8>::new());
    assert_eq!(trim_ascii_whitespace(b"\x0b x \x0b"), b"\x0b x \x0b".to_vec());
}

#[test]
fn settled_output_is_checked_before_parsing() {
    let manifest = manifest();
    let invocation = invocation();
    let mut out = CapturedOutput::new();
    out.take_chunk(b"  {}  ");
    let ok = ProcessExit::Exited {
        success: true,
        code: Some(0),
        status_text: "exit status: 0".to_owned(),
    };
    assert_eq!(settle_process_output(&manifest, &invocation, &ok, &out, "t"), Ok(b"{}".to_vec()));
    let failed = ProcessExit::Exited {
        success: false,
        code: Some(2),
        status_text: "exit status: 2".to_owned(),
    };
    assert_eq!(
        settle_process_output(&manifest, &invocation, &failed, &out, "t"),
        Err(ExternalAdapterSupervisorError::ProcessFailed {
            exit_status: "exit status: 2".to_owned()
        })
    );
    let empty = CapturedOutput::new();
    assert_eq!(
        settle_process_output(&manifest, &invocation, &ok, &empty, "t"),
        Err(ExternalAdapterSupervisorError::EmptyResponse)
    );
    match settle_process_output(&manifest, &invocation, &ProcessExit::TimedOut, &out, "2026") {
        Err(ExternalAdapterSupervisorError::TimedOut { timeout_ms, cancellation }) => {
            assert_eq!(timeout_ms, 2500);
            assert_eq!(cancellation.frame_id, "inv_1_timeout_cancel");
            assert_eq!(cancellation.reason, "invocation timeout after 2500ms");
            assert_eq!(cancellation.requested_at, "2026");
        }
        other => panic!("{other:?}"),
    }
}

#[test]
fn responses_must_answer_the_invocation() {
    let invocation = invocation();
    assert_eq!(validate_response_contract(&invocation, &response()), Ok(()));
    let mut r = response();
    r.invocation_id = "inv_2".to_owned();
    assert_eq!(
        validate_response_contract(&invocation, &r),
        Err(ExternalAdapterSupervisorError::ResponseMismatch {
            field: "invocation_id",
            expected: "inv_1".to_owned(),
            actual: "inv_2".to_owned()
        })
    );
}

#[test]
fn frames_are_told_apart_by_schema() {
    assert_eq!(frame_kind(RESPONSE_SCHEMA), FrameKind::Response);
    assert_eq!(
        frame_kind("runx.external_adapter.credential_request.v1"),
        FrameKind::CredentialRequest
    );
    assert_eq!(frame_kind("other"), FrameKind::Unsupported);
}

#[test]
fn exit_codes_and_statuses() {
    let mut r = response();
    assert_eq!(response_exit_code(&r), Ok(Some(0)));
    r.exit_code = Some(Some(1 << 40));
    assert!(response_exit_code(&r).is_err());
    r.exit_code = None;
    assert_eq!(response_exit_code(&r), Ok(None));
    assert_eq!(runtime_status(&ExternalAdapterStatus::Completed), InvocationStatus::Success);
    assert_eq!(runtime_status(&ExternalAdapterStatus::Cancelled), InvocationStatus::Failure);
}

#[test]
fn identifiers_are_normalized() {
    assert_eq!(normalize_request_id("a b//c"), "a_b_c");
    assert_eq!(normalize_request_id("///"), "skill");
    assert_eq!(identifier_segment("._acme.echo_."), "acme-echo");
}

#[test]
fn working_directory_joins_relative_paths() {
    assert_eq!(invocation_cwd(&None, "/skills/echo"), "/skills/echo");
    assert_eq!(invocation_cwd(&Some("/abs".to_owned()), "/skills/echo"), "/abs");
    assert_eq!(invocation_cwd(&Some("sub".to_owned()), "/skills/echo"), "/skills/echo/sub");
    assert_eq!(invocation_cwd(&Some("sub".to_owned()), "/skills/echo/"), "/skills/echo/sub");
}

#[test]
fn process_env_reads_bindings_in_name_order() {
    let mut i = invocation();
    i.env = Some(JsonObject {
        entries: vec![
            ("B".to_owned(), JsonValue::Bool(true)),
            ("A".to_owned(), JsonValue::Null),
        ],
    });
    assert_eq!(
        process_env(&i),
        Err(ExternalAdapterSupervisorError::InvalidEnvValue { key: "A".to_owned() })
    );
}
