//! The governance declarations of a skill or runner: retry, idempotency,
//! mutation, artifacts, allowed tools and execution semantics.
use vstd::prelude::*;
use crate::json::{JsonData, JsonObject, JsonValue, entries_data, key_sorted, lemma_entries_data, lemma_seq_data,
    lookup, opt_data, owned_data, seq_data, copy_json};
use crate::skill::fields::{
    ObjData, VErr, ValidationError, absent, agrees, field_error, first, first_value, invalid,
    lemma_map_all_full, lemma_map_all_prefix_err, lemma_map_all_step, map_all, opt_bool,
    opt_nonempty_str, opt_obj, opt_obj_view, opt_str, opt_str_array, opt_strings_view, opt_u64,
    optional_bool, optional_non_empty_string, optional_object_ref, optional_string_array,
    optional_u64, req_obj, required_object, strings_view, validation_error,
};
use crate::skill::types::{
    SkillArtifactContract, SkillIdempotencyPolicy, SkillRetryPolicy, ValidateSkillMode,
};
use crate::text::{concat, concat3, decimal, is_blank, str_eq, trim, u64_decimal};

verus! {

// ---------------------------------------------------------------------
// runx metadata, retry, idempotency, mutating.
// ---------------------------------------------------------------------

pub open spec fn runx_metadata_spec(v: Option<JsonData>, mode: ValidateSkillMode) -> Result<Option<ObjData>, VErr> {
    if absent(v) {
        Ok(None)
    } else {
        match v.unwrap() {
            JsonData::Object(o) => Ok(Some(o)),
            _ => if mode == ValidateSkillMode::Lenient {
                Ok(None)
            } else {
                Err(VErr::Invalid("runx"@, "runx must be an object when present."@))
            },
        }
    }
}

/// The `runx` block: an object, or absent. Lenient validation ignores a
/// block of another type.
pub fn validate_runx_metadata(value: Option<&JsonValue>, mode: ValidateSkillMode) -> (r: Result<Option<JsonObject>, ValidationError>)
    ensures
        agrees(r, runx_metadata_spec(opt_data(value), mode), |x: Option<JsonObject>| opt_obj_view(x)),
{
    match value {
        None => Ok(None),
        Some(JsonValue::Null) => Ok(None),
        Some(JsonValue::Object(o)) => Ok(Some(o.copy())),
        Some(_) => {
            if mode == ValidateSkillMode::Lenient {
                Ok(None)
            } else {
                Err(ValidationError::InvalidField {
                    field: "runx".to_owned(),
                    message: "runx must be an object when present.".to_owned(),
                })
            }
        },
    }
}

pub open spec fn retry_spec(v: Option<JsonData>, field: Seq<char>) -> Result<Option<u64>, VErr> {
    match opt_obj(v, field) {
        Err(e) => Err(e),
        Ok(None) => Ok(None),
        Ok(Some(o)) => match opt_u64(lookup(o, "max_attempts"@), field + ".max_attempts"@) {
            Err(e) => Err(e),
            Ok(n) => {
                let m = match n {
                    Some(x) => x,
                    None => 1u64,
                };
                if m == 0 {
                    Err(invalid(field + ".max_attempts must be a positive integer."@))
                } else {
                    Ok(Some(m))
                }
            },
        },
    }
}

pub open spec fn retry_view(x: Option<SkillRetryPolicy>) -> Option<u64> {
    match x {
        Some(p) => Some(p.max_attempts),
        None => None,
    }
}

/// A retry policy: an object whose `max_attempts` (default 1) is positive.
pub fn validate_retry(value: Option<&JsonValue>, field: &str) -> (r: Result<Option<SkillRetryPolicy>, ValidationError>)
    ensures
        agrees(r, retry_spec(opt_data(value), field@), |x: Option<SkillRetryPolicy>| retry_view(x)),
{
    let retry = match optional_object_ref(value, field) {
        Err(e) => return Err(e),
        Ok(None) => return Ok(None),
        Ok(Some(o)) => o,
    };
    let f = concat(field, ".max_attempts");
    let max_attempts = match optional_u64(retry.get("max_attempts"), f.as_str()) {
        Err(e) => return Err(e),
        Ok(Some(n)) => n,
        Ok(None) => 1,
    };
    if max_attempts == 0 {
        return Err(field_error(field, ".max_attempts must be a positive integer."));
    }
    Ok(Some(SkillRetryPolicy { max_attempts }))
}

pub open spec fn idempotency_spec(v: Option<JsonData>, field: Seq<char>) -> Result<Option<Option<Seq<char>>>, VErr> {
    if absent(v) {
        Ok(None)
    } else {
        match v.unwrap() {
            JsonData::Str(s) => if trim(s).len() == 0 {
                Err(invalid(field + " must not be empty."@))
            } else {
                Ok(Some(Some(s)))
            },
            _ => match req_obj(v, field) {
                Err(e) => Err(e),
                Ok(o) => match opt_nonempty_str(lookup(o, "key"@), field + ".key"@) {
                    Err(e) => Err(e),
                    Ok(k) => Ok(Some(k)),
                },
            },
        }
    }
}

pub open spec fn idempotency_view(x: Option<SkillIdempotencyPolicy>) -> Option<Option<Seq<char>>> {
    match x {
        Some(p) => Some(crate::reference::opt_str(p.key)),
        None => None,
    }
}

/// An idempotency policy: a non-blank key, or an object with an optional
/// non-blank `key`.
pub fn validate_idempotency(value: Option<&JsonValue>, field: &str) -> (r: Result<Option<SkillIdempotencyPolicy>, ValidationError>)
    ensures
        agrees(r, idempotency_spec(opt_data(value), field@), |x: Option<SkillIdempotencyPolicy>| idempotency_view(x)),
{
    match value {
        None => Ok(None),
        Some(JsonValue::Null) => Ok(None),
        Some(JsonValue::String(s)) => {
            if is_blank(s.as_str()) {
                Err(field_error(field, " must not be empty."))
            } else {
                Ok(Some(SkillIdempotencyPolicy { key: Some(s.clone()) }))
            }
        },
        Some(other) => {
            let record = match required_object(Some(other), field) {
                Err(e) => return Err(e),
                Ok(o) => o,
            };
            let f = concat(field, ".key");
            match optional_non_empty_string(record.get("key"), f.as_str()) {
                Err(e) => Err(e),
                Ok(k) => Ok(Some(SkillIdempotencyPolicy { key: k })),
            }
        },
    }
}

/// Whether a run mutates anything: a boolean, when declared.
pub fn validate_mutating(value: Option<&JsonValue>, field: &str) -> (r: Result<Option<bool>, ValidationError>)
    ensures
        agrees(r, opt_bool(opt_data(value), field@), |x: Option<bool>| x),
{
    optional_bool(value, field)
}

// ---------------------------------------------------------------------
// Artifacts and allowed tools.
// ---------------------------------------------------------------------

pub open spec fn named_entry(field: Seq<char>) -> spec_fn(int, (Seq<char>, JsonData)) -> Result<(Seq<char>, Seq<char>), VErr> {
    |i: int, e: (Seq<char>, JsonData)|
        match e.1 {
            JsonData::Str(s) => if trim(s).len() == 0 {
                Err(invalid(field + "."@ + e.0 + " must be a non-empty string."@))
            } else {
                Ok((e.0, s))
            },
            _ => Err(invalid(field + "."@ + e.0 + " must be a non-empty string."@)),
        }
}

pub open spec fn named_emits_spec(v: Option<JsonData>, field: Seq<char>) -> Result<Option<Seq<(Seq<char>, Seq<char>)>>, VErr> {
    match opt_obj(v, field) {
        Err(e) => Err(e),
        Ok(None) => Ok(None),
        Ok(Some(o)) => match map_all(key_sorted(o), named_entry(field)) {
            Err(e) => Err(e),
            Ok(m) => Ok(Some(m)),
        },
    }
}

pub open spec fn pairs_view(v: Seq<(String, String)>) -> Seq<(Seq<char>, Seq<char>)> {
    v.map_values(|p: (String, String)| (p.0@, p.1@))
}

pub open spec fn opt_pairs_view(o: Option<Vec<(String, String)>>) -> Option<Seq<(Seq<char>, Seq<char>)>> {
    match o {
        Some(v) => Some(pairs_view(v@)),
        None => None,
    }
}

/// Named artifacts: an object whose every value is a non-blank string,
/// read in name order.
pub fn validate_named_emits(value: Option<&JsonValue>, field: &str) -> (r: Result<Option<Vec<(String, String)>>, ValidationError>)
    ensures
        agrees(r, named_emits_spec(opt_data(value), field@), |x: Option<Vec<(String, String)>>| opt_pairs_view(x)),
{
    let record = match optional_object_ref(value, field) {
        Err(e) => return Err(e),
        Ok(None) => return Ok(None),
        Ok(Some(o)) => o,
    };
    let ghost declared = record.view();
    let record = record.key_sorted_copy();
    let ghost f = named_entry(field@);
    let ghost entries = record.view();
    proof {
        lemma_entries_data(record.entries@);
    }
    let mut out: Vec<(String, String)> = Vec::new();
    let mut i: usize = 0;
    proof {
        assert(entries.take(0) =~= Seq::<(Seq<char>, JsonData)>::empty());
        assert(pairs_view(out@) =~= Seq::<(Seq<char>, Seq<char>)>::empty());
    }
    while i < record.entries.len()
        invariant
            i <= record.entries@.len(),
            entries == record.view(),
            opt_obj(opt_data(value), field@) == Ok::<Option<ObjData>, VErr>(Some(declared)),
            entries == key_sorted(declared),
            entries.len() == record.entries@.len(),
            forall|j: int| 0 <= j < record.entries@.len() ==> #[trigger] entries[j] == (record.entries@[j].0@, record.entries@[j].1.data()),
            f == named_entry(field@),
            map_all(entries.take(i as int), f) == Ok::<Seq<(Seq<char>, Seq<char>)>, VErr>(pairs_view(out@)),
        decreases record.entries@.len() - i,
    {
        proof {
            lemma_map_all_step(entries, f, i as int);
        }
        let key = &record.entries[i].0;
        let ok = match &record.entries[i].1 {
            JsonValue::String(s) => !is_blank(s.as_str()),
            _ => false,
        };
        if !ok {
            let mut m = concat3(field, ".", key.as_str());
            m.append(" must be a non-empty string.");
            proof {
                assert(entries[i as int].0 == key@);
                assert(f(i as int, entries[i as int]) == Err::<(Seq<char>, Seq<char>), VErr>(invalid(m@)));
                lemma_map_all_prefix_err(entries, f, i + 1);
            }
            return Err(validation_error(m));
        }
        let value = match &record.entries[i].1 {
            JsonValue::String(s) => s.clone(),
            _ => String::new(),
        };
        let ghost before = out@;
        out.push((key.clone(), value));
        proof {
            assert(entries[i as int] == (key@, JsonData::Str(value@)));
            assert(f(i as int, entries[i as int]) == Ok::<(Seq<char>, Seq<char>), VErr>((key@, value@)));
            assert(pairs_view(out@) =~= pairs_view(before).push((key@, value@)));
        }
        i += 1;
    }
    proof {
        lemma_map_all_full(entries, f);
    }
    Ok(Some(out))
}

pub struct ArtifactView {
    pub emits: Option<Seq<Seq<char>>>,
    pub named_emits: Option<Seq<(Seq<char>, Seq<char>)>>,
    pub wrap_as: Option<Seq<char>>,
}

pub open spec fn artifact_view(a: SkillArtifactContract) -> ArtifactView {
    ArtifactView {
        emits: opt_strings_view(a.emits),
        named_emits: opt_pairs_view(a.named_emits),
        wrap_as: crate::reference::opt_str(a.wrap_as),
    }
}

pub open spec fn opt_artifact_view(o: Option<SkillArtifactContract>) -> Option<ArtifactView> {
    match o {
        Some(a) => Some(artifact_view(a)),
        None => None,
    }
}

pub open spec fn emits_spec(v: Option<JsonData>, field: Seq<char>) -> Result<Option<Seq<Seq<char>>>, VErr> {
    match v {
        Some(JsonData::Str(s)) => Ok(Some(seq![s])),
        _ => opt_str_array(v, field + ".emits"@),
    }
}

pub open spec fn artifact_spec(v: Option<JsonData>, field: Seq<char>) -> Result<Option<ArtifactView>, VErr> {
    match opt_obj(v, field) {
        Err(e) => Err(e),
        Ok(None) => Ok(None),
        Ok(Some(o)) => match emits_spec(lookup(o, "emits"@), field) {
            Err(e) => Err(e),
            Ok(emits) => match named_emits_spec(
                first(lookup(o, "named_emits"@), lookup(o, "namedEmits"@)),
                field + ".named_emits"@,
            ) {
                Err(e) => Err(e),
                Ok(named) => match opt_nonempty_str(
                    first(lookup(o, "wrap_as"@), lookup(o, "wrapAs"@)),
                    field + ".wrap_as"@,
                ) {
                    Err(e) => Err(e),
                    Ok(wrap) => if emits is None && named is None && wrap is None {
                        Ok(None)
                    } else {
                        Ok(Some(ArtifactView { emits, named_emits: named, wrap_as: wrap }))
                    },
                },
            },
        },
    }
}

/// The artifact contract: `emits` (a string or strings), `named_emits`
/// and `wrap_as`; a contract that declares none of them is no contract.
pub fn validate_artifact_contract(value: Option<&JsonValue>, field: &str) -> (r: Result<Option<SkillArtifactContract>, ValidationError>)
    ensures
        agrees(r, artifact_spec(opt_data(value), field@), |x: Option<SkillArtifactContract>| opt_artifact_view(x)),
{
    let record = match optional_object_ref(value, field) {
        Err(e) => return Err(e),
        Ok(None) => return Ok(None),
        Ok(Some(o)) => o,
    };
    let emits = match record.get("emits") {
        Some(JsonValue::String(s)) => {
            let mut v: Vec<String> = Vec::new();
            v.push(s.clone());
            proof {
                assert(strings_view(v@) =~= seq![s@]);
            }
            Some(v)
        },
        other => {
            let f = concat(field, ".emits");
            match optional_string_array(other, f.as_str()) {
                Err(e) => return Err(e),
                Ok(x) => x,
            }
        },
    };
    let named_field = concat(field, ".named_emits");
    let named_emits = match validate_named_emits(
        first_value(record.get("named_emits"), record.get("namedEmits")),
        named_field.as_str(),
    ) {
        Err(e) => return Err(e),
        Ok(x) => x,
    };
    let wrap_field = concat(field, ".wrap_as");
    let wrap_as = match optional_non_empty_string(
        first_value(record.get("wrap_as"), record.get("wrapAs")),
        wrap_field.as_str(),
    ) {
        Err(e) => return Err(e),
        Ok(x) => x,
    };
    if emits.is_none() && named_emits.is_none() && wrap_as.is_none() {
        return Ok(None);
    }
    Ok(Some(SkillArtifactContract { emits, named_emits, wrap_as }))
}

/// The artifact contract of a skill, as its callers read it.
pub fn validate_skill_artifact_contract(value: Option<&JsonValue>, field: &str) -> (r: Result<Option<SkillArtifactContract>, ValidationError>)
    ensures
        agrees(r, artifact_spec(opt_data(value), field@), |x: Option<SkillArtifactContract>| opt_artifact_view(x)),
{
    validate_artifact_contract(value, field)
}

pub open spec fn allowed_tools_spec(v: Option<JsonData>, field: Seq<char>) -> Result<Option<Seq<Seq<char>>>, VErr> {
    match opt_str_array(v, field) {
        Err(e) => Err(e),
        Ok(None) => Ok(None),
        Ok(Some(vals)) => if exists|i: int| 0 <= i < vals.len() && trim(#[trigger] vals[i]).len() == 0 {
            Err(invalid(field + " entries must not be empty."@))
        } else {
            Ok(Some(vals))
        },
    }
}

/// The tools a skill may use: strings, none of them blank.
pub fn validate_allowed_tools(value: Option<&JsonValue>, field: &str) -> (r: Result<Option<Vec<String>>, ValidationError>)
    ensures
        agrees(r, allowed_tools_spec(opt_data(value), field@), |x: Option<Vec<String>>| opt_strings_view(x)),
{
    let values = match optional_string_array(value, field) {
        Err(e) => return Err(e),
        Ok(None) => return Ok(None),
        Ok(Some(v)) => v,
    };
    let ghost vals = strings_view(values@);
    let mut i: usize = 0;
    while i < values.len()
        invariant
            i <= values@.len(),
            vals == strings_view(values@),
            opt_str_array(opt_data(value), field@) == Ok::<Option<Seq<Seq<char>>>, VErr>(Some(vals)),
            forall|j: int| 0 <= j < i ==> trim(#[trigger] vals[j]).len() != 0,
        decreases values@.len() - i,
    {
        if is_blank(values[i].as_str()) {
            proof {
                assert(trim(vals[i as int]).len() == 0);
            }
            return Err(field_error(field, " entries must not be empty."));
        }
        i += 1;
    }
    Ok(Some(values))
}

} // verus!
