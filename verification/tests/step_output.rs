use runx::json::{JsonObject, JsonValue};
use runx::json_text::render_json;
use runx::step_output::{
    ClaimContextExposure, StepOutputProjection, StepRunError, artifact_data_wrapper,
    build_step_output_projection, declared_claim_value, expose_declared_artifacts,
    expose_declared_run_outputs, expose_skill_claim_context_fields,
    reject_reserved_step_output_name,
};

fn obj(entries: Vec<(&str, JsonValue)>) -> JsonObject {
    JsonObject {
        entries: entries.into_iter().map(|(k, v)| (k.to_owned(), v)).collect(),
    }
}

fn s(v: &str) -> JsonValue {
    JsonValue::String(v.to_owned())
}

fn render(o: &JsonObject) -> String {
    render_json(&JsonValue::Object(o.clone()))
}

#[test]
fn declared_values_come_from_the_claim_or_its_envelopes() {
    let claim = obj(vec![
        ("top", s("a")),
        ("output", JsonValue::Object(obj(vec![("inner", s("b"))]))),
        ("payload", JsonValue::Object(obj(vec![("deep", s("c")), ("inner", s("x"))]))),
    ]);
    assert_eq!(declared_claim_value(&claim, "top"), Some(s("a")));
    assert_eq!(declared_claim_value(&claim, "inner"), Some(s("b")));
    assert_eq!(declared_claim_value(&claim, "deep"), Some(s("c")));
    assert_eq!(declared_claim_value(&claim, "missing"), None);
}

#[test]
fn reserved_names_are_refused() {
    assert_eq!(
        reject_reserved_step_output_name("s1", "stdout", "artifact output"),
        Err(StepRunError::InvalidRunStep {
            step_id: "s1".to_owned(),
            reason: "artifact output name \"stdout\" is reserved".to_owned()
        })
    );
    assert_eq!(reject_reserved_step_output_name("s1", "summary", "artifact output"), Ok(()));
}

#[test]
fn declared_run_outputs_must_be_returned() {
    let run = obj(vec![("outputs", JsonValue::Object(obj(vec![("verdict", s("string"))])))]);
    let claim = obj(vec![("verdict", s("pass"))]);
    let mut outputs = JsonObject::new();
    assert_eq!(expose_declared_run_outputs("s1", Some(&run), &claim, &mut outputs), Ok(()));
    assert_eq!(render(&outputs), "{\"verdict\":\"pass\"}");

    let mut outputs = JsonObject::new();
    assert_eq!(
        expose_declared_run_outputs("s1", Some(&run), &JsonObject::new(), &mut outputs),
        Err(StepRunError::InvalidRunStep {
            step_id: "s1".to_owned(),
            reason: "declared run output \"verdict\" was not returned by the step".to_owned()
        })
    );
    assert!(outputs.entries.is_empty());
    assert_eq!(expose_declared_run_outputs("s1", None, &claim, &mut outputs), Ok(()));
    assert!(outputs.entries.is_empty());
}

#[test]
fn artifacts_wrap_the_claim_and_named_emits() {
    let artifacts = obj(vec![
        ("wrap_as", s("report")),
        ("named_emits", JsonValue::Object(obj(vec![("summary", s("text")), ("absent", s("text"))]))),
    ]);
    let claim = obj(vec![("summary", s("ok"))]);
    let mut outputs = JsonObject::new();
    assert_eq!(expose_declared_artifacts("s1", Some(&artifacts), &claim, &mut outputs), Ok(()));
    assert_eq!(
        render(&outputs),
        "{\"report\":{\"data\":{\"summary\":\"ok\"}},\"summary\":{\"data\":\"ok\"}}"
    );
    let mut outputs = JsonObject::new();
    assert_eq!(
        expose_declared_artifacts("s1", Some(&artifacts), &JsonObject::new(), &mut outputs),
        Ok(())
    );
    assert!(outputs.entries.is_empty());
    let reserved = obj(vec![("wrap_as", s("raw"))]);
    assert!(expose_declared_artifacts("s1", Some(&reserved), &claim, &mut outputs).is_err());
}

#[test]
fn data_wrapper_keeps_objects_with_data() {
    let with_data = JsonValue::Object(obj(vec![("data", s("x"))]));
    assert_eq!(artifact_data_wrapper(with_data.clone()), with_data);
    assert_eq!(
        artifact_data_wrapper(s("y")),
        JsonValue::Object(obj(vec![("data", s("y"))]))
    );
}

#[test]
fn context_fields_skip_reserved_and_present_names() {
    let claim = obj(vec![("status", s("ok")), ("a", s("1")), ("b", s("2"))]);
    let mut outputs = obj(vec![("b", s("kept"))]);
    expose_skill_claim_context_fields(&claim, &mut outputs);
    assert_eq!(render(&outputs), "{\"a\":\"1\",\"b\":\"kept\"}");
}

#[test]
fn projection_exposes_declared_then_context() {
    let run = obj(vec![("outputs", JsonValue::Object(obj(vec![("a", s("string"))])))]);
    let projection = StepOutputProjection {
        claim: obj(vec![("a", s("1")), ("extra", s("2"))]),
        outputs: JsonObject::new(),
    };
    let built = build_step_output_projection(
        "s1",
        Some(&run),
        None,
        projection,
        ClaimContextExposure::DeclaredAndContext,
    )
    .unwrap();
    assert_eq!(render(&built.outputs), "{\"a\":\"1\",\"extra\":\"2\"}");
    let projection = StepOutputProjection {
        claim: obj(vec![("a", s("1")), ("extra", s("2"))]),
        outputs: JsonObject::new(),
    };
    let built = build_step_output_projection(
        "s1",
        Some(&run),
        None,
        projection,
        ClaimContextExposure::DeclaredOnly,
    )
    .unwrap();
    assert_eq!(render(&built.outputs), "{\"a\":\"1\"}");
}

#[test]
fn declared_run_outputs_are_checked_in_name_order() {
    let run = obj(vec![(
        "outputs",
        JsonValue::Object(obj(vec![("zeta", s("string")), ("alpha", s("string"))])),
    )]);
    let mut outputs = JsonObject::new();
    let err = expose_declared_run_outputs("s1", Some(&run), &JsonObject::new(), &mut outputs);
    match err {
        Err(StepRunError::InvalidRunStep { reason, .. }) => {
            assert_eq!(reason, "declared run output \"alpha\" was not returned by the step")
        }
        other => panic!("expected a refusal, got {other:?}"),
    }
}
