//! The execution semantics a skill declares for the receipts of its runs.
use vstd::prelude::*;
use crate::json::{JsonData, JsonObject, JsonValue, lemma_seq_data, lookup, opt_data, owned_data,
    seq_data, copy_opt_json};
use crate::reference::opt_str as opt_seq;
use crate::skill::fields::{
    ObjData, VErr, ValidationError, agrees, field_error, invalid, lemma_map_all_full,
    lemma_map_all_prefix_err, lemma_map_all_step, map_all, opt_array, opt_bool, opt_obj,
    opt_obj_view, opt_str, opt_u64, optional_array, optional_bool, optional_object,
    optional_object_ref, optional_string, optional_u64, req_obj, req_str, required_object,
    required_string,
};
use crate::skill::types::{
    ExecutionSemantics, GovernedDisposition, InputContextCapture, OutcomeState, ReceiptOutcome,
    ReceiptSurfaceRef,
};
use crate::text::{concat, concat3, decimal, str_eq, u64_decimal};

verus! {

pub open spec fn disposition_spec(v: Option<JsonData>, field: Seq<char>) -> Result<Option<GovernedDisposition>, VErr> {
    match opt_str(v, field) {
        Err(e) => Err(e),
        Ok(None) => Ok(None),
        Ok(Some(s)) => if s == "completed"@ {
            Ok(Some(GovernedDisposition::Completed))
        } else if s == "needs_agent"@ {
            Ok(Some(GovernedDisposition::NeedsAgent))
        } else if s == "policy_denied"@ {
            Ok(Some(GovernedDisposition::PolicyDenied))
        } else if s == "approval_required"@ {
            Ok(Some(GovernedDisposition::ApprovalRequired))
        } else if s == "observing"@ {
            Ok(Some(GovernedDisposition::Observing))
        } else if s == "escalated"@ {
            Ok(Some(GovernedDisposition::Escalated))
        } else {
            Err(invalid(field + " must be one of completed, needs_agent, policy_denied, approval_required, observing, escalated."@))
        },
    }
}

pub fn optional_disposition(value: Option<&JsonValue>, field: &str) -> (r: Result<Option<GovernedDisposition>, ValidationError>)
    ensures
        agrees(r, disposition_spec(opt_data(value), field@), |x: Option<GovernedDisposition>| x),
{
    let s = match optional_string(value, field) {
        Err(e) => return Err(e),
        Ok(None) => return Ok(None),
        Ok(Some(s)) => s,
    };
    let t = s.as_str();
    if str_eq(t, "completed") {
        Ok(Some(GovernedDisposition::Completed))
    } else if str_eq(t, "needs_agent") {
        Ok(Some(GovernedDisposition::NeedsAgent))
    } else if str_eq(t, "policy_denied") {
        Ok(Some(GovernedDisposition::PolicyDenied))
    } else if str_eq(t, "approval_required") {
        Ok(Some(GovernedDisposition::ApprovalRequired))
    } else if str_eq(t, "observing") {
        Ok(Some(GovernedDisposition::Observing))
    } else if str_eq(t, "escalated") {
        Ok(Some(GovernedDisposition::Escalated))
    } else {
        Err(field_error(field, " must be one of completed, needs_agent, policy_denied, approval_required, observing, escalated."))
    }
}

pub open spec fn outcome_state_spec(v: Option<JsonData>, field: Seq<char>) -> Result<Option<OutcomeState>, VErr> {
    match opt_str(v, field) {
        Err(e) => Err(e),
        Ok(None) => Ok(None),
        Ok(Some(s)) => if s == "pending"@ {
            Ok(Some(OutcomeState::Pending))
        } else if s == "complete"@ {
            Ok(Some(OutcomeState::Complete))
        } else if s == "expired"@ {
            Ok(Some(OutcomeState::Expired))
        } else {
            Err(invalid(field + " must be one of pending, complete, or expired."@))
        },
    }
}

pub fn optional_outcome_state(value: Option<&JsonValue>, field: &str) -> (r: Result<Option<OutcomeState>, ValidationError>)
    ensures
        agrees(r, outcome_state_spec(opt_data(value), field@), |x: Option<OutcomeState>| x),
{
    let s = match optional_string(value, field) {
        Err(e) => return Err(e),
        Ok(None) => return Ok(None),
        Ok(Some(s)) => s,
    };
    let t = s.as_str();
    if str_eq(t, "pending") {
        Ok(Some(OutcomeState::Pending))
    } else if str_eq(t, "complete") {
        Ok(Some(OutcomeState::Complete))
    } else if str_eq(t, "expired") {
        Ok(Some(OutcomeState::Expired))
    } else {
        Err(field_error(field, " must be one of pending, complete, or expired."))
    }
}

pub struct OutcomeView {
    pub code: Option<Seq<char>>,
    pub summary: Option<Seq<char>>,
    pub observed_at: Option<Seq<char>>,
    pub data: Option<ObjData>,
}

pub open spec fn outcome_view(o: Option<ReceiptOutcome>) -> Option<OutcomeView> {
    match o {
        Some(x) => Some(OutcomeView {
            code: opt_seq(x.code),
            summary: opt_seq(x.summary),
            observed_at: opt_seq(x.observed_at),
            data: opt_obj_view(x.data),
        }),
        None => None,
    }
}

pub open spec fn outcome_spec(v: Option<JsonData>, field: Seq<char>) -> Result<Option<OutcomeView>, VErr> {
    match opt_obj(v, field) {
        Err(e) => Err(e),
        Ok(None) => Ok(None),
        Ok(Some(o)) => match opt_str(lookup(o, "code"@), field + ".code"@) {
            Err(e) => Err(e),
            Ok(code) => match opt_str(lookup(o, "summary"@), field + ".summary"@) {
                Err(e) => Err(e),
                Ok(summary) => match opt_str(lookup(o, "observed_at"@), field + ".observed_at"@) {
                    Err(e) => Err(e),
                    Ok(observed_at) => match opt_obj(lookup(o, "data"@), field + ".data"@) {
                        Err(e) => Err(e),
                        Ok(data) => Ok(Some(OutcomeView { code, summary, observed_at, data })),
                    },
                },
            },
        },
    }
}

pub fn validate_outcome(value: Option<&JsonValue>, field: &str) -> (r: Result<Option<ReceiptOutcome>, ValidationError>)
    ensures
        agrees(r, outcome_spec(opt_data(value), field@), |x: Option<ReceiptOutcome>| outcome_view(x)),
{
    let record = match optional_object_ref(value, field) {
        Err(e) => return Err(e),
        Ok(None) => return Ok(None),
        Ok(Some(o)) => o,
    };
    let f = concat(field, ".code");
    let code = match optional_string(record.get("code"), f.as_str()) {
        Err(e) => return Err(e),
        Ok(x) => x,
    };
    let f = concat(field, ".summary");
    let summary = match optional_string(record.get("summary"), f.as_str()) {
        Err(e) => return Err(e),
        Ok(x) => x,
    };
    let f = concat(field, ".observed_at");
    let observed_at = match optional_string(record.get("observed_at"), f.as_str()) {
        Err(e) => return Err(e),
        Ok(x) => x,
    };
    let f = concat(field, ".data");
    let data = match optional_object(record.get("data"), f.as_str()) {
        Err(e) => return Err(e),
        Ok(x) => x,
    };
    Ok(Some(ReceiptOutcome { code, summary, observed_at, data }))
}

pub struct ContextView {
    pub capture: Option<bool>,
    pub source: Option<Seq<char>>,
    pub max_bytes: Option<u64>,
    pub snapshot: Option<JsonData>,
}

pub open spec fn context_view(o: Option<InputContextCapture>) -> Option<ContextView> {
    match o {
        Some(x) => Some(ContextView {
            capture: x.capture,
            source: opt_seq(x.source),
            max_bytes: x.max_bytes,
            snapshot: owned_data(x.snapshot),
        }),
        None => None,
    }
}

pub open spec fn context_spec(v: Option<JsonData>, field: Seq<char>) -> Result<Option<ContextView>, VErr> {
    match opt_obj(v, field) {
        Err(e) => Err(e),
        Ok(None) => Ok(None),
        Ok(Some(o)) => match opt_u64(lookup(o, "max_bytes"@), field + ".max_bytes"@) {
            Err(e) => Err(e),
            Ok(max_bytes) => if max_bytes == Some(0u64) {
                Err(invalid(field + ".max_bytes must be a positive integer."@))
            } else {
                match opt_bool(lookup(o, "capture"@), field + ".capture"@) {
                    Err(e) => Err(e),
                    Ok(capture) => match opt_str(lookup(o, "source"@), field + ".source"@) {
                        Err(e) => Err(e),
                        Ok(source) => Ok(Some(ContextView { capture, source, max_bytes, snapshot: lookup(o, "snapshot"@) })),
                    },
                }
            },
        },
    }
}

pub fn validate_input_context(value: Option<&JsonValue>, field: &str) -> (r: Result<Option<InputContextCapture>, ValidationError>)
    ensures
        agrees(r, context_spec(opt_data(value), field@), |x: Option<InputContextCapture>| context_view(x)),
{
    let record = match optional_object_ref(value, field) {
        Err(e) => return Err(e),
        Ok(None) => return Ok(None),
        Ok(Some(o)) => o,
    };
    let f = concat(field, ".max_bytes");
    let max_bytes = match optional_u64(record.get("max_bytes"), f.as_str()) {
        Err(e) => return Err(e),
        Ok(x) => x,
    };
    if max_bytes == Some(0u64) {
        return Err(field_error(field, ".max_bytes must be a positive integer."));
    }
    let f = concat(field, ".capture");
    let capture = match optional_bool(record.get("capture"), f.as_str()) {
        Err(e) => return Err(e),
        Ok(x) => x,
    };
    let f = concat(field, ".source");
    let source = match optional_string(record.get("source"), f.as_str()) {
        Err(e) => return Err(e),
        Ok(x) => x,
    };
    let snapshot = copy_opt_json(record.get("snapshot"));
    Ok(Some(InputContextCapture { capture, source, max_bytes, snapshot }))
}

pub struct SurfaceView {
    pub surface_type: Seq<char>,
    pub uri: Seq<char>,
    pub label: Option<Seq<char>>,
}

pub open spec fn surface_view(x: ReceiptSurfaceRef) -> SurfaceView {
    SurfaceView { surface_type: x.surface_type@, uri: x.uri@, label: opt_seq(x.label) }
}

pub open spec fn surfaces_view(o: Option<Vec<ReceiptSurfaceRef>>) -> Option<Seq<SurfaceView>> {
    match o {
        Some(v) => Some(v@.map_values(|x: ReceiptSurfaceRef| surface_view(x))),
        None => None,
    }
}

/// `field[index]`.
pub open spec fn indexed(field: Seq<char>, i: int) -> Seq<char> {
    field + "["@ + decimal(i as nat) + "]"@
}

pub open spec fn surface_entry(field: Seq<char>) -> spec_fn(int, JsonData) -> Result<SurfaceView, VErr> {
    |i: int, d: JsonData|
        match req_obj(Some(d), indexed(field, i)) {
            Err(e) => Err(e),
            Ok(o) => match req_str(lookup(o, "type"@), indexed(field, i) + ".type"@) {
                Err(e) => Err(e),
                Ok(t) => match req_str(lookup(o, "uri"@), indexed(field, i) + ".uri"@) {
                    Err(e) => Err(e),
                    Ok(u) => match opt_str(lookup(o, "label"@), indexed(field, i) + ".label"@) {
                        Err(e) => Err(e),
                        Ok(l) => Ok(SurfaceView { surface_type: t, uri: u, label: l }),
                    },
                },
            },
        }
}

pub open spec fn surface_refs_spec(v: Option<JsonData>, field: Seq<char>) -> Result<Option<Seq<SurfaceView>>, VErr> {
    match opt_array(v, field) {
        Err(e) => Err(e),
        Ok(None) => Ok(None),
        Ok(Some(items)) => match map_all(items, surface_entry(field)) {
            Err(e) => Err(e),
            Ok(m) => Ok(Some(m)),
        },
    }
}

fn validate_surface_ref(value: &JsonValue, field: &str, index: usize) -> (r: Result<ReceiptSurfaceRef, ValidationError>)
    requires
        index < u64::MAX,
    ensures
        agrees(r, surface_entry(field@)(index as int, value.data()), |x: ReceiptSurfaceRef| surface_view(x)),
{
    let digits = u64_decimal(index as u64);
    let mut at = concat3(field, "[", digits.as_str());
    at.append("]");
    let record = match required_object(Some(value), at.as_str()) {
        Err(e) => return Err(e),
        Ok(o) => o,
    };
    let f = concat(at.as_str(), ".type");
    let surface_type = match required_string(record.get("type"), f.as_str()) {
        Err(e) => return Err(e),
        Ok(x) => x,
    };
    let f = concat(at.as_str(), ".uri");
    let uri = match required_string(record.get("uri"), f.as_str()) {
        Err(e) => return Err(e),
        Ok(x) => x,
    };
    let f = concat(at.as_str(), ".label");
    let label = match optional_string(record.get("label"), f.as_str()) {
        Err(e) => return Err(e),
        Ok(x) => x,
    };
    Ok(ReceiptSurfaceRef { surface_type, uri, label })
}

/// A list of surface references, each an object with a `type` and a `uri`.
pub fn validate_surface_refs(value: Option<&JsonValue>, field: &str) -> (r: Result<Option<Vec<ReceiptSurfaceRef>>, ValidationError>)
    ensures
        agrees(r, surface_refs_spec(opt_data(value), field@), |x: Option<Vec<ReceiptSurfaceRef>>| surfaces_view(x)),
{
    let values = match optional_array(value, field) {
        Err(e) => return Err(e),
        Ok(None) => return Ok(None),
        Ok(Some(v)) => v,
    };
    let ghost items = seq_data(values@);
    let ghost f = surface_entry(field@);
    proof {
        lemma_seq_data(values@);
        assert(items.take(0) =~= Seq::<JsonData>::empty());
    }
    let mut out: Vec<ReceiptSurfaceRef> = Vec::new();
    let mut i: usize = 0;
    proof {
        assert(out@.map_values(|x: ReceiptSurfaceRef| surface_view(x)) =~= Seq::<SurfaceView>::empty());
    }
    while i < values.len()
        invariant
            i <= values@.len(),
            items == seq_data(values@),
            items.len() == values@.len(),
            forall|j: int| 0 <= j < values@.len() ==> #[trigger] items[j] == values@[j].data(),
            opt_array(opt_data(value), field@) == Ok::<Option<Seq<JsonData>>, VErr>(Some(items)),
            f == surface_entry(field@),
            map_all(items.take(i as int), f) == Ok::<Seq<SurfaceView>, VErr>(out@.map_values(|x: ReceiptSurfaceRef| surface_view(x))),
        decreases values@.len() - i,
    {
        proof {
            lemma_map_all_step(items, f, i as int);
        }
        match validate_surface_ref(&values[i], field, i) {
            Err(e) => {
                proof {
                    lemma_map_all_prefix_err(items, f, i + 1);
                }
                return Err(e);
            },
            Ok(s) => {
                let ghost before = out@;
                out.push(s);
                proof {
                    assert(out@.map_values(|x: ReceiptSurfaceRef| surface_view(x)) =~= before.map_values(
                        |x: ReceiptSurfaceRef| surface_view(x),
                    ).push(surface_view(out@.last())));
                }
            },
        }
        i += 1;
    }
    proof {
        lemma_map_all_full(items, f);
    }
    Ok(Some(out))
}

pub struct ExecView {
    pub disposition: Option<GovernedDisposition>,
    pub outcome_state: Option<OutcomeState>,
    pub outcome: Option<OutcomeView>,
    pub input_context: Option<ContextView>,
    pub surface_refs: Option<Seq<SurfaceView>>,
    pub evidence_refs: Option<Seq<SurfaceView>>,
}

pub open spec fn exec_view(o: Option<ExecutionSemantics>) -> Option<ExecView> {
    match o {
        Some(x) => Some(ExecView {
            disposition: x.disposition,
            outcome_state: x.outcome_state,
            outcome: outcome_view(x.outcome),
            input_context: context_view(x.input_context),
            surface_refs: surfaces_view(x.surface_refs),
            evidence_refs: surfaces_view(x.evidence_refs),
        }),
        None => None,
    }
}

pub open spec fn execution_spec(v: Option<JsonData>, field: Seq<char>) -> Result<Option<ExecView>, VErr> {
    match opt_obj(v, field) {
        Err(e) => Err(e),
        Ok(None) => Ok(None),
        Ok(Some(o)) => match disposition_spec(lookup(o, "disposition"@), field + ".disposition"@) {
            Err(e) => Err(e),
            Ok(disposition) => match outcome_state_spec(lookup(o, "outcome_state"@), field + ".outcome_state"@) {
                Err(e) => Err(e),
                Ok(outcome_state) => match outcome_spec(lookup(o, "outcome"@), field + ".outcome"@) {
                    Err(e) => Err(e),
                    Ok(outcome) => match context_spec(lookup(o, "input_context"@), field + ".input_context"@) {
                        Err(e) => Err(e),
                        Ok(input_context) => match surface_refs_spec(lookup(o, "surface_refs"@), field + ".surface_refs"@) {
                            Err(e) => Err(e),
                            Ok(surface_refs) => match surface_refs_spec(lookup(o, "evidence_refs"@), field + ".evidence_refs"@) {
                                Err(e) => Err(e),
                                Ok(evidence_refs) => Ok(Some(ExecView {
                                    disposition,
                                    outcome_state,
                                    outcome,
                                    input_context,
                                    surface_refs,
                                    evidence_refs,
                                })),
                            },
                        },
                    },
                },
            },
        },
    }
}

/// The execution semantics block: disposition, outcome state, outcome,
/// input context and the surface and evidence references.
pub fn validate_execution_semantics(value: Option<&JsonValue>, field: &str) -> (r: Result<Option<ExecutionSemantics>, ValidationError>)
    ensures
        agrees(r, execution_spec(opt_data(value), field@), |x: Option<ExecutionSemantics>| exec_view(x)),
{
    let record = match optional_object_ref(value, field) {
        Err(e) => return Err(e),
        Ok(None) => return Ok(None),
        Ok(Some(o)) => o,
    };
    let f = concat(field, ".disposition");
    let disposition = match optional_disposition(record.get("disposition"), f.as_str()) {
        Err(e) => return Err(e),
        Ok(x) => x,
    };
    let f = concat(field, ".outcome_state");
    let outcome_state = match optional_outcome_state(record.get("outcome_state"), f.as_str()) {
        Err(e) => return Err(e),
        Ok(x) => x,
    };
    let f = concat(field, ".outcome");
    let outcome = match validate_outcome(record.get("outcome"), f.as_str()) {
        Err(e) => return Err(e),
        Ok(x) => x,
    };
    let f = concat(field, ".input_context");
    let input_context = match validate_input_context(record.get("input_context"), f.as_str()) {
        Err(e) => return Err(e),
        Ok(x) => x,
    };
    let f = concat(field, ".surface_refs");
    let surface_refs = match validate_surface_refs(record.get("surface_refs"), f.as_str()) {
        Err(e) => return Err(e),
        Ok(x) => x,
    };
    let f = concat(field, ".evidence_refs");
    let evidence_refs = match validate_surface_refs(record.get("evidence_refs"), f.as_str()) {
        Err(e) => return Err(e),
        Ok(x) => x,
    };
    Ok(Some(ExecutionSemantics { disposition, outcome_state, outcome, input_context, surface_refs, evidence_refs }))
}

} // verus!
