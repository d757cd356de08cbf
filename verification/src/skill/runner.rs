//! Named runners of a skill and catalog metadata.
use vstd::prelude::*;
use crate::json::{JsonData, JsonObject, JsonValue, copy_opt_json, lookup, opt_data, owned_data};
use crate::reference::opt_str as opt_seq;
use crate::skill::fields::{
    ObjData, VErr, ValidationError, agrees, field_error, field_of, field_value, first, first_value,
    invalid, opt_bool, opt_obj, opt_obj_view, opt_str, optional_bool, optional_object,
    optional_object_ref, optional_string, req_str, required_string,
};
use crate::skill::validate::{
    GovView, governance_spec, input_names_ascending, inputs_spec, inputs_view, validate_governance_for,
    validate_inputs,
};
use crate::skill::source::{SourceView, source_spec, source_view, validate_source};
use crate::skill::governance::{idempotency_view, opt_artifact_view, retry_view};
use crate::skill::semantics::exec_view;
use crate::skill::fields::opt_strings_view;
use crate::skill::types::{
    CatalogAudience, CatalogKind, CatalogMetadata, CatalogVisibility, InputView, SkillInput,
    SkillRunnerDefinition,
};
use crate::text::{concat, concat3, str_eq};

verus! {

pub struct RunnerView {
    pub name: Seq<char>,
    pub default: bool,
    pub source: SourceView,
    pub inputs: Seq<(Seq<char>, InputView)>,
    pub auth: Option<JsonData>,
    pub risk: Option<JsonData>,
    pub runtime: Option<JsonData>,
    pub governance: GovView,
    pub runx: Option<ObjData>,
    pub raw: ObjData,
}

pub open spec fn runner_view(r: SkillRunnerDefinition) -> RunnerView {
    RunnerView {
        name: r.name@,
        default: r.default,
        source: source_view(r.source),
        inputs: inputs_view(r.inputs@),
        auth: owned_data(r.auth),
        risk: owned_data(r.risk),
        runtime: owned_data(r.runtime),
        governance: GovView {
            retry: retry_view(r.retry),
            idempotency: idempotency_view(r.idempotency),
            mutating: r.mutating,
            artifacts: opt_artifact_view(r.artifacts),
            allowed_tools: opt_strings_view(r.allowed_tools),
            execution: exec_view(r.execution),
        },
        runx: opt_obj_view(r.runx),
        raw: r.raw.view(),
    }
}

/// `runners.{name}.`
pub open spec fn runner_prefix(name: Seq<char>) -> Seq<char> {
    "runners."@ + name + "."@
}

/// The ruling on the runner `name` declared by `runner`.
pub open spec fn runner_spec(name: Seq<char>, runner: ObjData) -> Result<RunnerView, VErr> {
    let p = runner_prefix(name);
    match opt_obj(lookup(runner, "runx"@), p + "runx"@) {
        Err(e) => Err(e),
        Ok(runx) => match opt_obj(lookup(runner, "source"@), p + "source"@) {
            Err(e) => Err(e),
            Ok(src) => {
                let source_record = match src {
                    Some(s) => s,
                    None => runner,
                };
                match governance_spec(
                    runner,
                    runx,
                    lookup(runner, "risk"@),
                    p,
                    first(lookup(runner, "artifacts"@), field_of(runx, "artifacts"@)),
                    p + "artifacts"@,
                ) {
                    Err(e) => Err(e),
                    Ok(gov) => match opt_bool(lookup(runner, "default"@), p + "default"@) {
                        Err(e) => Err(e),
                        Ok(default) => match source_spec(source_record, runx) {
                            Err(e) => Err(e),
                            Ok(source) => match opt_obj(lookup(runner, "inputs"@), p + "inputs"@) {
                                Err(e) => Err(e),
                                Ok(inputs_block) => match (match inputs_block {
                                    Some(o) => inputs_spec(o),
                                    None => Ok(Seq::empty()),
                                }) {
                                    Err(e) => Err(e),
                                    Ok(inputs) => Ok(RunnerView {
                                        name,
                                        default: match default {
                                            Some(b) => b,
                                            None => false,
                                        },
                                        source,
                                        inputs,
                                        auth: lookup(runner, "auth"@),
                                        risk: lookup(runner, "risk"@),
                                        runtime: lookup(runner, "runtime"@),
                                        governance: gov,
                                        runx,
                                        raw: runner,
                                    }),
                                },
                            },
                        },
                    },
                }
            },
        },
    }
}

/// Validates the runner `name` of a skill. A runner without a `source`
/// block is its own source block.
pub fn validate_runner_definition(name: &str, runner: JsonObject) -> (r: Result<SkillRunnerDefinition, ValidationError>)
    ensures
        agrees(r, runner_spec(name@, runner.view()), |x: SkillRunnerDefinition| runner_view(x)),
        r matches Ok(x) ==> input_names_ascending(x.inputs@),
{
    let prefix = concat3("runners.", name, ".");
    let p = prefix.as_str();
    let f = concat(p, "runx");
    let runx = match optional_object(runner.get("runx"), f.as_str()) {
        Err(e) => return Err(e),
        Ok(x) => x,
    };
    let f = concat(p, "source");
    let source_block = match optional_object_ref(runner.get("source"), f.as_str()) {
        Err(e) => return Err(e),
        Ok(x) => x,
    };
    let af = concat(p, "artifacts");
    let governance = match validate_governance_for(
        &runner,
        runx.as_ref(),
        runner.get("risk"),
        p,
        first_value(runner.get("artifacts"), field_value(runx.as_ref(), "artifacts")),
        af.as_str(),
    ) {
        Err(e) => return Err(e),
        Ok(g) => g,
    };
    let f = concat(p, "default");
    let default = match optional_bool(runner.get("default"), f.as_str()) {
        Err(e) => return Err(e),
        Ok(Some(b)) => b,
        Ok(None) => false,
    };
    let source_record = match source_block {
        Some(s) => s,
        None => &runner,
    };
    let source = match validate_source(source_record, runx.as_ref()) {
        Err(e) => return Err(e),
        Ok(x) => x,
    };
    let f = concat(p, "inputs");
    let inputs = match optional_object_ref(runner.get("inputs"), f.as_str()) {
        Err(e) => return Err(e),
        Ok(None) => {
            let v: Vec<(String, SkillInput)> = Vec::new();
            proof {
                assert(inputs_view(v@) =~= Seq::<(Seq<char>, InputView)>::empty());
            }
            v
        },
        Ok(Some(o)) => match validate_inputs(o) {
            Err(e) => return Err(e),
            Ok(v) => v,
        },
    };
    let auth = copy_opt_json(runner.get("auth"));
    let risk = copy_opt_json(runner.get("risk"));
    let runtime = copy_opt_json(runner.get("runtime"));
    Ok(SkillRunnerDefinition {
        name: name.to_owned(),
        default,
        source,
        inputs,
        auth,
        risk,
        runtime,
        retry: governance.retry,
        idempotency: governance.idempotency,
        mutating: governance.mutating,
        artifacts: governance.artifacts,
        allowed_tools: governance.allowed_tools,
        execution: governance.execution,
        runx,
        raw: runner,
    })
}

// ---------------------------------------------------------------------
// Catalog metadata.
// ---------------------------------------------------------------------

pub open spec fn catalog_spec(value: Option<ObjData>, label: Seq<char>) -> Result<Option<CatalogMetadata>, VErr> {
    match value {
        None => Ok(None),
        Some(v) => match req_str(lookup(v, "kind"@), label + ".kind"@) {
            Err(e) => Err(e),
            Ok(k) => if k != "skill"@ && k != "graph"@ {
                Err(invalid(label + ".kind must be skill or graph."@))
            } else {
                match req_str(lookup(v, "audience"@), label + ".audience"@) {
                    Err(e) => Err(e),
                    Ok(a) => if a != "public"@ && a != "builder"@ && a != "operator"@ {
                        Err(invalid(label + ".audience must be public, builder, or operator."@))
                    } else {
                        match opt_str(lookup(v, "visibility"@), label + ".visibility"@) {
                            Err(e) => Err(e),
                            Ok(vis) => if vis is Some && vis != Some("public"@) && vis != Some("private"@) {
                                Err(invalid(label + ".visibility must be public or private."@))
                            } else {
                                Ok(Some(CatalogMetadata {
                                    kind: if k == "skill"@ { CatalogKind::Skill } else { CatalogKind::Graph },
                                    audience: if a == "public"@ {
                                        CatalogAudience::Public
                                    } else if a == "builder"@ {
                                        CatalogAudience::Builder
                                    } else {
                                        CatalogAudience::Operator
                                    },
                                    visibility: if vis == Some("private"@) {
                                        CatalogVisibility::Private
                                    } else {
                                        CatalogVisibility::Public
                                    },
                                }))
                            },
                        }
                    },
                }
            },
        },
    }
}

/// Catalog metadata: a kind, an audience and an optional visibility
/// (public by default).
pub fn validate_catalog_metadata(value: Option<JsonObject>, label: &str) -> (r: Result<Option<CatalogMetadata>, ValidationError>)
    ensures
        agrees(r, catalog_spec(opt_obj_view(value), label@), |x: Option<CatalogMetadata>| x),
{
    proof {
        reveal_strlit("public");
        reveal_strlit("private");
        assert("public"@.len() != "private"@.len());
    }
    let value = match value {
        None => return Ok(None),
        Some(v) => v,
    };
    let f = concat(label, ".kind");
    let k = match required_string(value.get("kind"), f.as_str()) {
        Err(e) => return Err(e),
        Ok(s) => s,
    };
    let kind = if str_eq(k.as_str(), "skill") {
        CatalogKind::Skill
    } else if str_eq(k.as_str(), "graph") {
        CatalogKind::Graph
    } else {
        return Err(field_error(label, ".kind must be skill or graph."));
    };
    let f = concat(label, ".audience");
    let a = match required_string(value.get("audience"), f.as_str()) {
        Err(e) => return Err(e),
        Ok(s) => s,
    };
    let audience = if str_eq(a.as_str(), "public") {
        CatalogAudience::Public
    } else if str_eq(a.as_str(), "builder") {
        CatalogAudience::Builder
    } else if str_eq(a.as_str(), "operator") {
        CatalogAudience::Operator
    } else {
        return Err(field_error(label, ".audience must be public, builder, or operator."));
    };
    let f = concat(label, ".visibility");
    let vis = match optional_string(value.get("visibility"), f.as_str()) {
        Err(e) => return Err(e),
        Ok(x) => x,
    };
    let visibility = match &vis {
        None => CatalogVisibility::Public,
        Some(v) => {
            if str_eq(v.as_str(), "public") {
                CatalogVisibility::Public
            } else if str_eq(v.as_str(), "private") {
                CatalogVisibility::Private
            } else {
                return Err(field_error(label, ".visibility must be public or private."));
            }
        },
    };
    Ok(Some(CatalogMetadata { kind, audience, visibility }))
}

} // verus!
