//! The skill validator: a parsed skill document in, a validated skill (or
//! the first thing wrong with it) out.
use vstd::prelude::*;
use crate::json::{JsonData, JsonObject, JsonValue, copy_opt_json, entries_data, key_sorted, lemma_entries_data, overlay, keys_ascending, lemma_key_sorted_ascending,
    lookup, opt_data, owned_data};
use crate::reference::opt_str as opt_seq;
use crate::skill::fields::{
    ObjData, VErr, ValidationError, agrees, field_error, field_of, field_value, first, first_value,
    invalid, lemma_map_all_full, lemma_map_all_prefix_err, lemma_map_all_step, map_all, nested,
    nested_value, opt_bool, opt_obj, opt_obj_view, opt_str, opt_strings_view, optional_bool,
    optional_object, optional_object_ref, optional_string, req_obj, req_str, required_object,
    required_string, validation_error,
};
use crate::skill::governance::{
    ArtifactView, allowed_tools_spec, artifact_spec, idempotency_spec, idempotency_view,
    opt_artifact_view, retry_spec, retry_view, runx_metadata_spec, validate_allowed_tools,
    validate_artifact_contract, validate_idempotency, validate_mutating, validate_retry,
    validate_runx_metadata,
};
use crate::skill::semantics::{ExecView, exec_view, execution_spec, validate_execution_semantics};
use crate::skill::source::{SourceView, source_spec, source_view, validate_source};
use crate::skill::types::{
    CatalogAudience, CatalogKind, CatalogMetadata, CatalogVisibility, ExecutionSemantics,
    InputView, RawSkillIr, SkillArtifactContract, SkillIdempotencyPolicy, SkillInput,
    SkillRetryPolicy, SkillRunnerDefinition, ValidateSkillMode, ValidateSkillOptions,
    ValidatedSkill,
};
use crate::text::{concat, concat3, str_eq, str_lt};

verus! {

// ---------------------------------------------------------------------
// Inputs.
// ---------------------------------------------------------------------

pub open spec fn or_text(o: Option<Seq<char>>, fallback: Seq<char>) -> Seq<char> {
    match o {
        Some(s) => s,
        None => fallback,
    }
}

pub open spec fn input_entry() -> spec_fn(int, (Seq<char>, JsonData)) -> Result<(Seq<char>, InputView), VErr> {
    |i: int, e: (Seq<char>, JsonData)| {
        let field = "inputs."@ + e.0;
        match req_obj(Some(e.1), field) {
            Err(err) => Err(err),
            Ok(o) => match opt_str(lookup(o, "type"@), field + ".type"@) {
                Err(err) => Err(err),
                Ok(t) => match opt_bool(lookup(o, "required"@), field + ".required"@) {
                    Err(err) => Err(err),
                    Ok(req) => match opt_str(lookup(o, "description"@), field + ".description"@) {
                        Err(err) => Err(err),
                        Ok(d) => Ok((e.0, InputView {
                            input_type: or_text(t, "string"@),
                            required: match req {
                                Some(b) => b,
                                None => false,
                            },
                            description: d,
                            default: lookup(o, "default"@),
                        })),
                    },
                },
            },
        }
    }
}

/// The declared inputs, each name once (the last declaration of a name
/// wins, as a JSON map keeps it), in name order, each validated.
pub open spec fn inputs_spec(entries: ObjData) -> Result<Seq<(Seq<char>, InputView)>, VErr> {
    map_all(key_sorted(overlay(Seq::empty(), entries)), input_entry())
}

/// The input names strictly ascend: the inputs come in name order and no
/// name occurs twice.
pub open spec fn input_names_ascending(v: Seq<(String, SkillInput)>) -> bool {
    forall|i: int, j: int| 0 <= i < j < v.len() ==> str_lt(#[trigger] v[i].0@, #[trigger] v[j].0@)
}

pub open spec fn inputs_view(v: Seq<(String, SkillInput)>) -> Seq<(Seq<char>, InputView)> {
    v.map_values(|p: (String, SkillInput)| (p.0@, p.1@))
}

fn validate_input(name: &String, value: &JsonValue) -> (r: Result<(String, SkillInput), ValidationError>)
    ensures
        agrees(r, input_entry()(0, (name@, value.data())), |p: (String, SkillInput)| (p.0@, p.1@)),
{
    let field = concat("inputs.", name.as_str());
    let input = match required_object(Some(value), field.as_str()) {
        Err(e) => return Err(e),
        Ok(o) => o,
    };
    let f = concat(field.as_str(), ".type");
    let input_type = match optional_string(input.get("type"), f.as_str()) {
        Err(e) => return Err(e),
        Ok(Some(t)) => t,
        Ok(None) => "string".to_owned(),
    };
    let f = concat(field.as_str(), ".required");
    let required = match optional_bool(input.get("required"), f.as_str()) {
        Err(e) => return Err(e),
        Ok(Some(b)) => b,
        Ok(None) => false,
    };
    let f = concat(field.as_str(), ".description");
    let description = match optional_string(input.get("description"), f.as_str()) {
        Err(e) => return Err(e),
        Ok(d) => d,
    };
    let default = copy_opt_json(input.get("default"));
    Ok((name.clone(), SkillInput { input_type, required, description, default }))
}

/// Validates the declared inputs, in name order; the first malformed
/// input refuses them all.
pub fn validate_inputs(declared: &JsonObject) -> (r: Result<Vec<(String, SkillInput)>, ValidationError>)
    ensures
        agrees(r, inputs_spec(declared.view()), |v: Vec<(String, SkillInput)>| inputs_view(v@)),
        r matches Ok(v) ==> input_names_ascending(v@),
{
    let unique = declared.normalized();
    let inputs = unique.key_sorted_copy();
    let ghost entries = inputs.view();
    let ghost f = input_entry();
    proof {
        lemma_entries_data(inputs.entries@);
        lemma_key_sorted_ascending(unique.view());
        assert(entries.take(0) =~= Seq::<(Seq<char>, JsonData)>::empty());
    }
    let mut out: Vec<(String, SkillInput)> = Vec::new();
    proof {
        assert(inputs_view(out@) =~= Seq::<(Seq<char>, InputView)>::empty());
    }
    let mut i: usize = 0;
    while i < inputs.entries.len()
        invariant
            i <= inputs.entries@.len(),
            entries == inputs.view(),
            entries == key_sorted(overlay(Seq::empty(), declared.view())),
            keys_ascending(entries),
            entries.len() == inputs.entries@.len(),
            out@.len() == i,
            forall|k: int| 0 <= k < i ==> #[trigger] out@[k].0@ == entries[k].0,
            forall|j: int| 0 <= j < inputs.entries@.len() ==> #[trigger] entries[j] == (inputs.entries@[j].0@, inputs.entries@[j].1.data()),
            f == input_entry(),
            map_all(entries.take(i as int), f) == Ok::<Seq<(Seq<char>, InputView)>, VErr>(inputs_view(out@)),
        decreases inputs.entries@.len() - i,
    {
        proof {
            lemma_map_all_step(entries, f, i as int);
        }
        match validate_input(&inputs.entries[i].0, &inputs.entries[i].1) {
            Err(e) => {
                proof {
                    lemma_map_all_prefix_err(entries, f, i + 1);
                }
                return Err(e);
            },
            Ok(p) => {
                let ghost before = out@;
                out.push(p);
                proof {
                    assert(inputs_view(out@) =~= inputs_view(before).push((out@.last().0@, out@.last().1@)));
                }
            },
        }
        i += 1;
    }
    proof {
        lemma_map_all_full(entries, f);
        assert forall|a: int, b: int| 0 <= a < b < out@.len() implies str_lt(#[trigger] out@[a].0@, #[trigger] out@[b].0@) by {
            assert(out@[a].0@ == entries[a].0 && out@[b].0@ == entries[b].0);
        }
    }
    Ok(out)
}

// ---------------------------------------------------------------------
// Governance.
// ---------------------------------------------------------------------

/// What the governance declarations of a skill or runner settle.
pub struct GovView {
    pub retry: Option<u64>,
    pub idempotency: Option<Option<Seq<char>>>,
    pub mutating: Option<bool>,
    pub artifacts: Option<ArtifactView>,
    pub allowed_tools: Option<Seq<Seq<char>>>,
    pub execution: Option<ExecView>,
}

/// The governance of a document `o` with its `runx` block and `risk`
/// value. Field names start with `prefix`; the artifact contract is read
/// from `artifacts` and reported as `artifacts_field`.
pub open spec fn governance_spec(
    o: ObjData,
    runx: Option<ObjData>,
    risk: Option<JsonData>,
    prefix: Seq<char>,
    artifacts: Option<JsonData>,
    artifacts_field: Seq<char>,
) -> Result<GovView, VErr> {
    match retry_spec(first(lookup(o, "retry"@), field_of(runx, "retry"@)), prefix + "retry"@) {
        Err(e) => Err(e),
        Ok(retry) => match idempotency_spec(first(lookup(o, "idempotency"@), field_of(runx, "idempotency"@)), prefix + "idempotency"@) {
            Err(e) => Err(e),
            Ok(idempotency) => match opt_bool(
                first(first(lookup(o, "mutating"@), nested(risk, "mutating"@)), field_of(runx, "mutating"@)),
                prefix + "mutating"@,
            ) {
                Err(e) => Err(e),
                Ok(mutating) => match artifact_spec(artifacts, artifacts_field) {
                    Err(e) => Err(e),
                    Ok(art) => match allowed_tools_spec(field_of(runx, "allowed_tools"@), prefix + "runx.allowed_tools"@) {
                        Err(e) => Err(e),
                        Ok(tools) => match execution_spec(first(lookup(o, "execution"@), field_of(runx, "execution"@)), prefix + "execution"@) {
                            Err(e) => Err(e),
                            Ok(exec) => Ok(GovView { retry, idempotency, mutating, artifacts: art, allowed_tools: tools, execution: exec }),
                        },
                    },
                },
            },
        },
    }
}

pub struct Governance {
    pub retry: Option<SkillRetryPolicy>,
    pub idempotency: Option<SkillIdempotencyPolicy>,
    pub mutating: Option<bool>,
    pub artifacts: Option<SkillArtifactContract>,
    pub allowed_tools: Option<Vec<String>>,
    pub execution: Option<ExecutionSemantics>,
}

pub open spec fn gov_view(g: Governance) -> GovView {
    GovView {
        retry: retry_view(g.retry),
        idempotency: idempotency_view(g.idempotency),
        mutating: g.mutating,
        artifacts: opt_artifact_view(g.artifacts),
        allowed_tools: opt_strings_view(g.allowed_tools),
        execution: exec_view(g.execution),
    }
}

pub open spec fn obj_opt(o: Option<&JsonObject>) -> Option<ObjData> {
    match o {
        Some(x) => Some(x.view()),
        None => None,
    }
}

pub fn validate_governance_for(
    o: &JsonObject,
    runx: Option<&JsonObject>,
    risk: Option<&JsonValue>,
    prefix: &str,
    artifacts: Option<&JsonValue>,
    artifacts_field: &str,
) -> (r: Result<Governance, ValidationError>)
    ensures
        agrees(r, governance_spec(o.view(), obj_opt(runx), opt_data(risk), prefix@, opt_data(artifacts), artifacts_field@), |g: Governance| gov_view(g)),
{
    let f = concat(prefix, "retry");
    let retry = match validate_retry(first_value(o.get("retry"), field_value(runx, "retry")), f.as_str()) {
        Err(e) => return Err(e),
        Ok(x) => x,
    };
    let f = concat(prefix, "idempotency");
    let idempotency = match validate_idempotency(first_value(o.get("idempotency"), field_value(runx, "idempotency")), f.as_str()) {
        Err(e) => return Err(e),
        Ok(x) => x,
    };
    let f = concat(prefix, "mutating");
    let mutating = match validate_mutating(
        first_value(first_value(o.get("mutating"), nested_value(risk, "mutating")), field_value(runx, "mutating")),
        f.as_str(),
    ) {
        Err(e) => return Err(e),
        Ok(x) => x,
    };
    let art = match validate_artifact_contract(artifacts, artifacts_field) {
        Err(e) => return Err(e),
        Ok(x) => x,
    };
    let f = concat(prefix, "runx.allowed_tools");
    let tools = match validate_allowed_tools(field_value(runx, "allowed_tools"), f.as_str()) {
        Err(e) => return Err(e),
        Ok(x) => x,
    };
    let f = concat(prefix, "execution");
    let execution = match validate_execution_semantics(first_value(o.get("execution"), field_value(runx, "execution")), f.as_str()) {
        Err(e) => return Err(e),
        Ok(x) => x,
    };
    Ok(Governance { retry, idempotency, mutating, artifacts: art, allowed_tools: tools, execution })
}

// ---------------------------------------------------------------------
// The skill.
// ---------------------------------------------------------------------

/// The source block of a skill: `source` when it is an object, the agent
/// source `{"type": "agent"}` when it is absent or `null`.
pub open spec fn source_block_spec(front: ObjData) -> Result<ObjData, VErr> {
    match lookup(front, "source"@) {
        None => Ok(default_agent_source_view()),
        Some(v) => match opt_obj(Some(v), "source"@) {
            Err(e) => Err(e),
            Ok(None) => Ok(default_agent_source_view()),
            Ok(Some(o)) => Ok(o),
        },
    }
}

pub open spec fn default_agent_source_view() -> ObjData {
    seq![("type"@, JsonData::Str("agent"@))]
}

pub fn default_agent_source() -> (r: JsonObject)
    ensures
        r.view() == default_agent_source_view(),
        r.wf(),
{
    let mut o = JsonObject::new();
    o.insert("type".to_owned(), JsonValue::String("agent".to_owned()));
    proof {
        assert(o.view() =~= default_agent_source_view());
    }
    o
}

pub struct SkillView {
    pub name: Seq<char>,
    pub description: Option<Seq<char>>,
    pub body: Seq<char>,
    pub source: SourceView,
    pub inputs: Seq<(Seq<char>, InputView)>,
    pub auth: Option<JsonData>,
    pub risk: Option<JsonData>,
    pub runtime: Option<JsonData>,
    pub governance: GovView,
    pub has_quality_profile: bool,
    pub runx: Option<ObjData>,
    pub frontmatter: ObjData,
    pub raw_frontmatter: Seq<char>,
}

pub open spec fn skill_view(s: ValidatedSkill) -> SkillView {
    SkillView {
        name: s.name@,
        description: opt_seq(s.description),
        body: s.body@,
        source: source_view(s.source),
        inputs: inputs_view(s.inputs@),
        auth: owned_data(s.auth),
        risk: owned_data(s.risk),
        runtime: owned_data(s.runtime),
        governance: GovView {
            retry: retry_view(s.retry),
            idempotency: idempotency_view(s.idempotency),
            mutating: s.mutating,
            artifacts: opt_artifact_view(s.artifacts),
            allowed_tools: opt_strings_view(s.allowed_tools),
            execution: exec_view(s.execution),
        },
        has_quality_profile: s.quality_profile is Some,
        runx: opt_obj_view(s.runx),
        frontmatter: s.raw.frontmatter.view(),
        raw_frontmatter: s.raw.raw_frontmatter@,
    }
}

pub open spec fn inputs_block_spec(front: ObjData) -> Result<Seq<(Seq<char>, InputView)>, VErr> {
    match opt_obj(lookup(front, "inputs"@), "inputs"@) {
        Err(e) => Err(e),
        Ok(None) => Ok(Seq::empty()),
        Ok(Some(o)) => inputs_spec(o),
    }
}

/// The ruling on a skill document: its frontmatter `front`, body `body`
/// and raw frontmatter text, validated in `mode`. No quality profile is
/// read from the body: an accepted skill never has one.
pub open spec fn skill_spec(front: ObjData, raw_frontmatter: Seq<char>, body: Seq<char>, mode: ValidateSkillMode) -> Result<SkillView, VErr> {
    match runx_metadata_spec(lookup(front, "runx"@), mode) {
        Err(e) => Err(e),
        Ok(runx) => match source_block_spec(front) {
            Err(e) => Err(e),
            Ok(src) => match governance_spec(front, runx, lookup(front, "risk"@), ""@, field_of(runx, "artifacts"@), "runx.artifacts"@) {
                Err(e) => Err(e),
                Ok(gov) => match req_str(lookup(front, "name"@), "name"@) {
                    Err(e) => Err(e),
                    Ok(name) => match opt_str(lookup(front, "description"@), "description"@) {
                        Err(e) => Err(e),
                        Ok(description) => match source_spec(src, runx) {
                            Err(e) => Err(e),
                            Ok(source) => match inputs_block_spec(front) {
                                Err(e) => Err(e),
                                Ok(inputs) => Ok(SkillView {
                                    name,
                                    description,
                                    body,
                                    source,
                                    inputs,
                                    auth: lookup(front, "auth"@),
                                    risk: lookup(front, "risk"@),
                                    runtime: lookup(front, "runtime"@),
                                    governance: gov,
                                    has_quality_profile: false,
                                    runx,
                                    frontmatter: front,
                                    raw_frontmatter,
                                }),
                            },
                        },
                    },
                },
            },
        },
    }
}

/// Validates a skill document in the given mode. The body is kept as
/// written; no quality profile is extracted from it, so `quality_profile`
/// is always `None`.
pub fn validate_skill_with_options(raw: RawSkillIr, options: ValidateSkillOptions) -> (r: Result<ValidatedSkill, ValidationError>)
    ensures
        agrees(r, skill_spec(raw.frontmatter.view(), raw.raw_frontmatter@, raw.body@, options.mode), |s: ValidatedSkill| skill_view(s)),
        r matches Ok(s) ==> input_names_ascending(s.inputs@) && s.raw == raw,
{
    let runx = match validate_runx_metadata(raw.frontmatter.get("runx"), options.mode) {
        Err(e) => return Err(e),
        Ok(x) => x,
    };
    let source_block = match raw.frontmatter.get("source") {
        None => default_agent_source(),
        Some(v) => match optional_object(Some(v), "source") {
            Err(e) => return Err(e),
            Ok(None) => default_agent_source(),
            Ok(Some(o)) => o,
        },
    };
    let risk = copy_opt_json(raw.frontmatter.get("risk"));
    let governance = match validate_governance_for(
        &raw.frontmatter,
        runx.as_ref(),
        risk.as_ref(),
        "",
        field_value(runx.as_ref(), "artifacts"),
        "runx.artifacts",
    ) {
        Err(e) => return Err(e),
        Ok(g) => g,
    };
    let name = match required_string(raw.frontmatter.get("name"), "name") {
        Err(e) => return Err(e),
        Ok(x) => x,
    };
    let description = match optional_string(raw.frontmatter.get("description"), "description") {
        Err(e) => return Err(e),
        Ok(x) => x,
    };
    let body = raw.body.clone();
    let source = match validate_source(&source_block, runx.as_ref()) {
        Err(e) => return Err(e),
        Ok(x) => x,
    };
    let inputs = match optional_object_ref(raw.frontmatter.get("inputs"), "inputs") {
        Err(e) => return Err(e),
        Ok(None) => {
            let v: Vec<(String, SkillInput)> = Vec::new();
            proof {
                assert(inputs_view(v@) =~= Seq::<(Seq<char>, InputView)>::empty());
            }
            v
        },
        Ok(Some(o)) => match validate_inputs(o) {
            Err(e) => return Err(e),
            Ok(v) => v,
        },
    };
    let auth = copy_opt_json(raw.frontmatter.get("auth"));
    let runtime = copy_opt_json(raw.frontmatter.get("runtime"));
    Ok(ValidatedSkill {
        name,
        description,
        body,
        source,
        inputs,
        auth,
        risk,
        runtime,
        retry: governance.retry,
        idempotency: governance.idempotency,
        mutating: governance.mutating,
        artifacts: governance.artifacts,
        quality_profile: None,
        allowed_tools: governance.allowed_tools,
        execution: governance.execution,
        runx,
        raw,
    })
}

/// Validates a skill document strictly, as `validate_skill_with_options`
/// does with strict options.
pub fn validate_skill(raw: RawSkillIr) -> (r: Result<ValidatedSkill, ValidationError>)
    ensures
        agrees(r, skill_spec(raw.frontmatter.view(), raw.raw_frontmatter@, raw.body@, ValidateSkillMode::Strict), |s: ValidatedSkill| skill_view(s)),
        r matches Ok(s) ==> input_names_ascending(s.inputs@) && s.raw == raw,
{
    validate_skill_with_options(raw, ValidateSkillOptions::default())
}

/// Validating a skill is validating it with strict options: for the same
/// document, a result of `validate_skill` and a result of
/// `validate_skill_with_options` with strict options are both refusals
/// with the same error, or both acceptances of the same skill.
pub proof fn law_validate_skill_is_strict_validation(
    raw: RawSkillIr,
    options: ValidateSkillOptions,
    plain: Result<ValidatedSkill, ValidationError>,
    strict: Result<ValidatedSkill, ValidationError>,
)
    requires
        options.mode == ValidateSkillMode::Strict,
        agrees(plain, skill_spec(raw.frontmatter.view(), raw.raw_frontmatter@, raw.body@, ValidateSkillMode::Strict),
            |s: ValidatedSkill| skill_view(s)),
        agrees(strict, skill_spec(raw.frontmatter.view(), raw.raw_frontmatter@, raw.body@, options.mode),
            |s: ValidatedSkill| skill_view(s)),
    ensures
        plain is Ok <==> strict is Ok,
        plain matches Err(a) ==> (strict matches Err(b) && a@ == b@),
        plain matches Ok(a) ==> (strict matches Ok(b) && skill_view(a) == skill_view(b)),
{
}

} // verus!
