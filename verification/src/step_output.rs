//! Step output projection: which values of a skill's claim a graph step
//! exposes as outputs (declared run outputs, artifact outputs, and the
//! claim's own context fields), and the names no step may claim.
use vstd::prelude::*;
use crate::json::{JsonData, JsonObject, JsonValue, copy_json, key_sorted, lemma_entries_data, lookup, spec_insert};
use crate::text::{concat, concat3, str_eq};

verus! {

pub type Entries = Seq<(Seq<char>, JsonData)>;

/// A step refused at run time.
#[derive(Clone, Debug, PartialEq)]
pub enum StepRunError {
    InvalidRunStep { step_id: String, reason: String },
}

/// What a step's run produced: the skill's claim and the outputs exposed
/// from it so far.
#[derive(Debug, PartialEq)]
pub struct StepOutputProjection {
    pub claim: JsonObject,
    pub outputs: JsonObject,
}

#[derive(Clone, Copy, Debug, PartialEq, Eq, Structural)]
pub enum ClaimContextExposure {
    DeclaredOnly,
    DeclaredAndContext,
}

/// A string as `{:?}` writes it: quoted, with escapes.
pub uninterp spec fn debug_str(s: Seq<char>) -> Seq<char>;

/// `format!("{:?}", s)` on a string.
#[verifier::external_body]
pub(crate) fn debug_quoted(s: &str) -> (r: String)
    ensures
        r@ == debug_str(s@),
{
    format!("{:?}", s)
}

/// Output names the runtime keeps for itself.
pub open spec fn reserved_name(n: Seq<char>) -> bool {
    n == "raw"@ || n == "skill_claim"@ || n == "stdout"@ || n == "stderr"@ || n == "status"@
}

fn is_reserved(n: &str) -> (b: bool)
    ensures
        b == reserved_name(n@),
{
    str_eq(n, "raw") || str_eq(n, "skill_claim") || str_eq(n, "stdout") || str_eq(n, "stderr") || str_eq(
        n,
        "status",
    )
}

pub open spec fn reserved_reason(kind: Seq<char>, name: Seq<char>) -> Seq<char> {
    kind + " name "@ + debug_str(name) + " is reserved"@
}

pub open spec fn missing_reason(name: Seq<char>) -> Seq<char> {
    "declared run output "@ + debug_str(name) + " was not returned by the step"@
}

/// Refuses an output name the runtime keeps for itself.
pub fn reject_reserved_step_output_name(step_id: &str, name: &str, output_kind: &str) -> (r: Result<(), StepRunError>)
    ensures
        reserved_name(name@) <==> r is Err,
        r matches Err(StepRunError::InvalidRunStep { step_id: s, reason }) ==> s@ == step_id@ && reason@
            == reserved_reason(output_kind@, name@),
{
    if is_reserved(name) {
        let reason = concat3(output_kind, " name ", debug_quoted(name).as_str());
        let reason = concat(reason.as_str(), " is reserved");
        return Err(StepRunError::InvalidRunStep { step_id: step_id.to_owned(), reason });
    }
    Ok(())
}

/// The value a claim gives for a declared name: the name itself, or the
/// name inside the first of the `output`, `outputs`, `payload` envelopes
/// that holds it.
pub open spec fn declared_value(claim: Entries, name: Seq<char>) -> Option<JsonData> {
    match lookup(claim, name) {
        Some(v) => Some(v),
        None => match envelope_value(claim, "output"@, name) {
            Some(v) => Some(v),
            None => match envelope_value(claim, "outputs"@, name) {
                Some(v) => Some(v),
                None => envelope_value(claim, "payload"@, name),
            },
        },
    }
}

pub open spec fn envelope_value(claim: Entries, envelope: Seq<char>, name: Seq<char>) -> Option<JsonData> {
    match lookup(claim, envelope) {
        Some(JsonData::Object(o)) => lookup(o, name),
        _ => None,
    }
}

fn envelope_value_exec(claim: &JsonObject, envelope: &str, name: &str) -> (r: Option<JsonValue>)
    ensures
        (match r {
            Some(v) => Some(v.data()),
            None => None,
        }) == envelope_value(claim.view(), envelope@, name@),
{
    match claim.get(envelope) {
        Some(JsonValue::Object(o)) => match o.get(name) {
            Some(v) => Some(copy_json(v)),
            None => None,
        },
        _ => None,
    }
}

/// The claim's value for a declared output name.
pub fn declared_claim_value(claim: &JsonObject, name: &str) -> (r: Option<JsonValue>)
    ensures
        (match r {
            Some(v) => Some(v.data()),
            None => None,
        }) == declared_value(claim.view(), name@),
{
    match claim.get(name) {
        Some(v) => return Some(copy_json(v)),
        None => {},
    }
    match envelope_value_exec(claim, "output", name) {
        Some(v) => return Some(v),
        None => {},
    }
    match envelope_value_exec(claim, "outputs", name) {
        Some(v) => return Some(v),
        None => {},
    }
    envelope_value_exec(claim, "payload", name)
}

pub open spec fn keys_of(e: Entries) -> Seq<Seq<char>> {
    e.map_values(|p: (Seq<char>, JsonData)| p.0)
}

/// Exposing the declared run outputs in name order: each must be unreserved and
/// returned by the claim; the outputs hold those exposed before a refusal.
pub open spec fn run_outputs(keys: Seq<Seq<char>>, claim: Entries, outs: Entries) -> (Option<Seq<char>>, Entries)
    decreases keys.len(),
{
    if keys.len() == 0 {
        (None, outs)
    } else {
        let prev = run_outputs(keys.drop_last(), claim, outs);
        if prev.0 is Some {
            prev
        } else {
            let k = keys.last();
            if reserved_name(k) {
                (Some(reserved_reason("declared run output"@, k)), prev.1)
            } else {
                match declared_value(claim, k) {
                    None => (Some(missing_reason(k)), prev.1),
                    Some(v) => (None, spec_insert(prev.1, k, v)),
                }
            }
        }
    }
}

pub open spec fn run_outputs_decl(run: Option<Entries>) -> Option<Entries> {
    match run {
        Some(e) => match lookup(e, "outputs"@) {
            Some(JsonData::Object(d)) => Some(d),
            _ => None,
        },
        None => None,
    }
}

pub open spec fn opt_view(o: Option<&JsonObject>) -> Option<Entries> {
    match o {
        Some(x) => Some(x.view()),
        None => None,
    }
}

/// Copies the run's declared outputs from the claim into the outputs.
pub fn expose_declared_run_outputs(
    step_id: &str,
    run: Option<&JsonObject>,
    claim: &JsonObject,
    outputs: &mut JsonObject,
) -> (r: Result<(), StepRunError>)
    requires
        old(outputs).wf(),
    ensures
        final(outputs).wf(),
        match run_outputs_decl(opt_view(run)) {
            None => r is Ok && final(outputs).view() == old(outputs).view(),
            Some(decl) => {
                let res = run_outputs(keys_of(key_sorted(decl)), claim.view(), old(outputs).view());
                &&& final(outputs).view() == res.1
                &&& match res.0 {
                    None => r is Ok,
                    Some(m) => r matches Err(StepRunError::InvalidRunStep { step_id: s, reason }) && s@ == step_id@
                        && reason@ == m,
                }
            },
        },
{
    let listed = match run {
        Some(o) => match o.get("outputs") {
            Some(JsonValue::Object(d)) => d,
            _ => return Ok(()),
        },
        None => return Ok(()),
    };
    let declared = listed.key_sorted_copy();
    proof {
        lemma_entries_data(declared.entries@);
    }
    let ghost keys = keys_of(declared.view());
    let ghost o0 = outputs.view();
    let mut i: usize = 0;
    proof {
        assert(keys.take(0) =~= Seq::<Seq<char>>::empty());
    }
    while i < declared.entries.len()
        invariant
            i <= declared.entries@.len(),
            keys == keys_of(declared.view()),
            o0 == old(outputs).view(),
            run_outputs_decl(opt_view(run)) == Some(listed.view()),
            declared.view() == key_sorted(listed.view()),
            keys.len() == declared.entries@.len(),
            forall|j: int| 0 <= j < keys.len() ==> #[trigger] keys[j] == declared.entries@[j].0@,
            outputs.wf(),
            run_outputs(keys.take(i as int), claim.view(), o0) == (None::<Seq<char>>, outputs.view()),
        decreases declared.entries@.len() - i,
    {
        let name = declared.entries[i].0.as_str();
        proof {
            assert(keys.take(i + 1).drop_last() =~= keys.take(i as int));
            assert(keys.take(i + 1).last() == name@);
        }
        match reject_reserved_step_output_name(step_id, name, "declared run output") {
            Ok(()) => {},
            Err(e) => {
                proof {
                    lemma_run_outputs_stops(keys, claim.view(), o0, i as int + 1);
                }
                return Err(e);
            },
        }
        match declared_claim_value(claim, name) {
            None => {
                let reason = concat3("declared run output ", debug_quoted(name).as_str(), " was not returned by the step");
                proof {
                    lemma_run_outputs_stops(keys, claim.view(), o0, i as int + 1);
                }
                return Err(StepRunError::InvalidRunStep { step_id: step_id.to_owned(), reason });
            },
            Some(v) => {
                outputs.insert(name.to_owned(), v);
            },
        }
        i += 1;
    }
    proof {
        assert(keys.take(keys.len() as int) =~= keys);
    }
    Ok(())
}

/// Once a prefix fails, the whole fold fails the same way.
proof fn lemma_run_outputs_stops(keys: Seq<Seq<char>>, claim: Entries, outs: Entries, k: int)
    requires
        0 <= k <= keys.len(),
        run_outputs(keys.take(k), claim, outs).0 is Some,
    ensures
        run_outputs(keys, claim, outs) == run_outputs(keys.take(k), claim, outs),
    decreases keys.len() - k,
{
    if k < keys.len() {
        assert(keys.take(k + 1).drop_last() =~= keys.take(k));
        lemma_run_outputs_stops(keys, claim, outs, k + 1);
    } else {
        assert(keys.take(k) =~= keys);
    }
}

/// An artifact value under `data`, unless it is an object that has one.
pub open spec fn wrap_data(v: JsonData) -> JsonData {
    match v {
        JsonData::Object(o) => if lookup(o, "data"@) is Some {
            v
        } else {
            JsonData::Object(seq![("data"@, v)])
        },
        _ => JsonData::Object(seq![("data"@, v)]),
    }
}

/// An artifact value wrapped so that its payload sits under `data`.
pub fn artifact_data_wrapper(value: JsonValue) -> (r: JsonValue)
    ensures
        r.data() == wrap_data(value.data()),
{
    let has_data = match &value {
        JsonValue::Object(o) => o.contains_key("data"),
        _ => false,
    };
    if has_data {
        return value;
    }
    let ghost d = value.data();
    let wrapper = JsonObject { entries: vec![("data".to_owned(), value)] };
    proof {
        lemma_entries_data(wrapper.entries@);
        assert(wrapper.view() =~= seq![("data"@, d)]);
    }
    JsonValue::Object(wrapper)
}

/// Exposing the named artifact emits in order: each must be unreserved; a
/// name the claim does not return is passed over.
pub open spec fn named_emits(keys: Seq<Seq<char>>, claim: Entries, outs: Entries) -> (Option<Seq<char>>, Entries)
    decreases keys.len(),
{
    if keys.len() == 0 {
        (None, outs)
    } else {
        let prev = named_emits(keys.drop_last(), claim, outs);
        if prev.0 is Some {
            prev
        } else {
            let k = keys.last();
            if reserved_name(k) {
                (Some(reserved_reason("artifact output"@, k)), prev.1)
            } else {
                match declared_value(claim, k) {
                    None => prev,
                    Some(v) => (None, spec_insert(prev.1, k, wrap_data(v))),
                }
            }
        }
    }
}

proof fn lemma_named_emits_stops(keys: Seq<Seq<char>>, claim: Entries, outs: Entries, k: int)
    requires
        0 <= k <= keys.len(),
        named_emits(keys.take(k), claim, outs).0 is Some,
    ensures
        named_emits(keys, claim, outs) == named_emits(keys.take(k), claim, outs),
    decreases keys.len() - k,
{
    if k < keys.len() {
        assert(keys.take(k + 1).drop_last() =~= keys.take(k));
        lemma_named_emits_stops(keys, claim, outs, k + 1);
    } else {
        assert(keys.take(k) =~= keys);
    }
}

/// The artifact outputs: the claim (or its declared value) under the
/// `wrap_as` name, then the named emits; nothing without artifacts or
/// with an empty claim.
pub open spec fn artifact_outputs(artifacts: Option<Entries>, claim: Entries, outs: Entries) -> (Option<Seq<char>>, Entries) {
    match artifacts {
        None => (None, outs),
        Some(a) => if claim.len() == 0 {
            (None, outs)
        } else {
            let wrapped: (Option<Seq<char>>, Entries) = match lookup(a, "wrap_as"@) {
                Some(JsonData::Str(w)) => if reserved_name(w) {
                    (Some(reserved_reason("artifact output"@, w)), outs)
                } else {
                    (
                        None,
                        spec_insert(
                            outs,
                            w,
                            match declared_value(claim, w) {
                                Some(v) => v,
                                None => JsonData::Object(seq![("data"@, JsonData::Object(claim))]),
                            },
                        ),
                    )
                },
                _ => (None, outs),
            };
            if wrapped.0 is Some {
                wrapped
            } else {
                match lookup(a, "named_emits"@) {
                    Some(JsonData::Object(ne)) => named_emits(keys_of(key_sorted(ne)), claim, wrapped.1),
                    _ => wrapped,
                }
            }
        },
    }
}

/// Copies the declared artifacts from the claim into the outputs.
pub fn expose_declared_artifacts(
    step_id: &str,
    artifacts: Option<&JsonObject>,
    claim: &JsonObject,
    outputs: &mut JsonObject,
) -> (r: Result<(), StepRunError>)
    requires
        old(outputs).wf(),
    ensures
        final(outputs).wf(),
        ({
            let res = artifact_outputs(opt_view(artifacts), claim.view(), old(outputs).view());
            &&& final(outputs).view() == res.1
            &&& match res.0 {
                None => r is Ok,
                Some(m) => r matches Err(StepRunError::InvalidRunStep { step_id: s, reason }) && s@ == step_id@
                    && reason@ == m,
            }
        }),
{
    let arts = match artifacts {
        Some(a) => a,
        None => return Ok(()),
    };
    if claim.is_empty() {
        return Ok(());
    }
    match arts.get("wrap_as") {
        Some(JsonValue::String(w)) => {
            reject_reserved_step_output_name(step_id, w.as_str(), "artifact output")?;
            let value = match declared_claim_value(claim, w.as_str()) {
                Some(v) => v,
                None => {
                    let inner = claim.copy();
                    let ghost cv = claim.view();
                    let wrapper = JsonObject { entries: vec![("data".to_owned(), JsonValue::Object(inner))] };
                    proof {
                        lemma_entries_data(wrapper.entries@);
                        assert(wrapper.view() =~= seq![("data"@, JsonData::Object(cv))]);
                    }
                    JsonValue::Object(wrapper)
                },
            };
            outputs.insert(w.clone(), value);
        },
        _ => {},
    }
    let listed = match arts.get("named_emits") {
        Some(JsonValue::Object(ne)) => ne,
        _ => return Ok(()),
    };
    let named = listed.key_sorted_copy();
    proof {
        lemma_entries_data(named.entries@);
    }
    let ghost keys = keys_of(named.view());
    let ghost o0 = outputs.view();
    let mut i: usize = 0;
    proof {
        assert(keys.take(0) =~= Seq::<Seq<char>>::empty());
        assert(artifact_outputs(opt_view(artifacts), claim.view(), old(outputs).view()) == named_emits(
            keys,
            claim.view(),
            o0,
        ));
    }
    while i < named.entries.len()
        invariant
            i <= named.entries@.len(),
            keys == keys_of(named.view()),
            artifacts == Some(arts),
            artifact_outputs(opt_view(artifacts), claim.view(), old(outputs).view()) == named_emits(
                keys,
                claim.view(),
                o0,
            ),
            keys.len() == named.entries@.len(),
            forall|j: int| 0 <= j < keys.len() ==> #[trigger] keys[j] == named.entries@[j].0@,
            outputs.wf(),
            named_emits(keys.take(i as int), claim.view(), o0) == (None::<Seq<char>>, outputs.view()),
        decreases named.entries@.len() - i,
    {
        let name = named.entries[i].0.as_str();
        proof {
            assert(keys.take(i + 1).drop_last() =~= keys.take(i as int));
            assert(keys.take(i + 1).last() == name@);
        }
        match reject_reserved_step_output_name(step_id, name, "artifact output") {
            Ok(()) => {},
            Err(e) => {
                proof {
                    lemma_named_emits_stops(keys, claim.view(), o0, i as int + 1);
                }
                return Err(e);
            },
        }
        match declared_claim_value(claim, name) {
            None => {},
            Some(v) => {
                outputs.insert(name.to_owned(), artifact_data_wrapper(v));
            },
        }
        i += 1;
    }
    proof {
        assert(keys.take(keys.len() as int) =~= keys);
    }
    Ok(())
}

/// The claim's own fields added to the outputs, in order, except reserved
/// names and names the outputs already hold.
pub open spec fn context_fields(claim: Entries, outs: Entries) -> Entries
    decreases claim.len(),
{
    if claim.len() == 0 {
        outs
    } else {
        let prev = context_fields(claim.drop_last(), outs);
        let (k, v) = claim.last();
        if reserved_name(k) || lookup(prev, k) is Some {
            prev
        } else {
            spec_insert(prev, k, v)
        }
    }
}

/// Copies the claim's context fields into the outputs.
pub fn expose_skill_claim_context_fields(claim: &JsonObject, outputs: &mut JsonObject)
    requires
        old(outputs).wf(),
    ensures
        final(outputs).wf(),
        final(outputs).view() == context_fields(claim.view(), old(outputs).view()),
{
    proof {
        lemma_entries_data(claim.entries@);
    }
    let ghost c = claim.view();
    let ghost o0 = outputs.view();
    let mut i: usize = 0;
    proof {
        assert(c.take(0) =~= Seq::<(Seq<char>, JsonData)>::empty());
    }
    while i < claim.entries.len()
        invariant
            i <= claim.entries@.len(),
            c == claim.view(),
            c.len() == claim.entries@.len(),
            forall|j: int| 0 <= j < c.len() ==> #[trigger] c[j] == (claim.entries@[j].0@, claim.entries@[j].1.data()),
            outputs.wf(),
            context_fields(c.take(i as int), o0) == outputs.view(),
        decreases claim.entries@.len() - i,
    {
        let name = claim.entries[i].0.as_str();
        proof {
            assert(c.take(i + 1).drop_last() =~= c.take(i as int));
            assert(c.take(i + 1).last() == c[i as int]);
        }
        if !is_reserved(name) && !outputs.contains_key(name) {
            outputs.insert(name.to_owned(), copy_json(&claim.entries[i].1));
        }
        i += 1;
    }
    proof {
        assert(c.take(c.len() as int) =~= c);
    }
}

/// The step's outputs, from the projected claim and outputs: declared
/// run outputs, then artifact outputs, then (where asked) the
/// claim's context fields.
pub fn build_step_output_projection(
    step_id: &str,
    run: Option<&JsonObject>,
    artifacts: Option<&JsonObject>,
    projection: StepOutputProjection,
    exposure: ClaimContextExposure,
) -> (r: Result<StepOutputProjection, StepRunError>)
    requires
        projection.outputs.wf(),
    ensures
        ({
            let decl = run_outputs_decl(opt_view(run));
            let first: (Option<Seq<char>>, Entries) = match decl {
                None => (None, projection.outputs.view()),
                Some(d) => run_outputs(keys_of(key_sorted(d)), projection.claim.view(), projection.outputs.view()),
            };
            let second = artifact_outputs(opt_view(artifacts), projection.claim.view(), first.1);
            if first.0 is Some || second.0 is Some {
                r matches Err(StepRunError::InvalidRunStep { reason, .. }) && Some(reason@) == (if first.0 is Some {
                    first.0
                } else {
                    second.0
                })
            } else {
                r matches Ok(p) && p.claim.view() == projection.claim.view() && p.outputs.view() == (match exposure {
                    ClaimContextExposure::DeclaredAndContext => context_fields(projection.claim.view(), second.1),
                    ClaimContextExposure::DeclaredOnly => second.1,
                })
            }
        }),
{
    let mut projection = projection;
    expose_declared_run_outputs(step_id, run, &projection.claim, &mut projection.outputs)?;
    expose_declared_artifacts(step_id, artifacts, &projection.claim, &mut projection.outputs)?;
    match exposure {
        ClaimContextExposure::DeclaredAndContext => {
            expose_skill_claim_context_fields(&projection.claim, &mut projection.outputs);
        },
        ClaimContextExposure::DeclaredOnly => {},
    }
    Ok(projection)
}


/// The claim holds an object under `key` that holds `name`.
pub open spec fn holds_name(claim: Entries, key: Seq<char>, name: Seq<char>) -> bool {
    exists|o: Entries| lookup(claim, key) == Some(JsonData::Object(o)) && #[trigger] lookup(o, name) is Some
}

/// Where a declared value is found: the claim's own key first, then the
/// first of the `output`, `outputs` and `payload` envelopes (objects)
/// that holds the name; nothing where none does.
pub proof fn law_declared_value_search_order(claim: Entries, name: Seq<char>, o: Entries, v: JsonData)
    ensures
        lookup(claim, name) == Some(v) ==> declared_value(claim, name) == Some(v),
        lookup(claim, name) is None && lookup(claim, "output"@) == Some(JsonData::Object(o)) && lookup(o, name)
            == Some(v) ==> declared_value(claim, name) == Some(v),
        lookup(claim, name) is None && !holds_name(claim, "output"@, name) && lookup(claim, "outputs"@) == Some(
            JsonData::Object(o),
        ) && lookup(o, name) == Some(v) ==> declared_value(claim, name) == Some(v),
        lookup(claim, name) is None && !holds_name(claim, "output"@, name) && !holds_name(claim, "outputs"@, name)
            && lookup(claim, "payload"@) == Some(JsonData::Object(o)) && lookup(o, name) == Some(v)
            ==> declared_value(claim, name) == Some(v),
        lookup(claim, name) is None && !holds_name(claim, "output"@, name) && !holds_name(claim, "outputs"@, name)
            && !holds_name(claim, "payload"@, name) ==> declared_value(claim, name) is None,
{
}

} // verus!
