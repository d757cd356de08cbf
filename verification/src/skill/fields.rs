//! Reading typed fields out of a JSON document, with the validation errors
//! the skill and graph parsers report.
use vstd::prelude::*;
use crate::json::{JsonData, JsonNumber, JsonObject, JsonValue, NumberData, lookup, opt_data};
use crate::text::{concat, is_blank, trim};

verus! {

/// The view of a JSON object: its entries in order.
pub type ObjData = Seq<(Seq<char>, JsonData)>;

/// Why a document was refused.
#[derive(Clone, Debug, PartialEq)]
pub enum ValidationError {
    InvalidField { field: String, message: String },
    MissingField { field: String },
}

/// The view of a validation error.
pub enum VErr {
    Invalid(Seq<char>, Seq<char>),
    Missing(Seq<char>),
}

impl View for ValidationError {
    type V = VErr;

    open spec fn view(&self) -> VErr {
        match self {
            ValidationError::InvalidField { field, message } => VErr::Invalid(field@, message@),
            ValidationError::MissingField { field } => VErr::Missing(field@),
        }
    }
}

impl ValidationError {
    /// The error as text: the field and what is wrong with it.
    pub fn message(&self) -> (r: String)
        ensures
            r@ == error_text(self@),
    {
        match self {
            ValidationError::InvalidField { field, message } => {
                let mut s = field.clone();
                s.append(": ");
                s.append(message.as_str());
                s
            },
            ValidationError::MissingField { field } => concat(field.as_str(), " is required."),
        }
    }
}

pub open spec fn error_text(e: VErr) -> Seq<char> {
    match e {
        VErr::Invalid(f, m) => f + ": "@ + m,
        VErr::Missing(f) => f + " is required."@,
    }
}

/// An error about the document as a whole.
pub open spec fn invalid(message: Seq<char>) -> VErr {
    VErr::Invalid("skill"@, message)
}

pub fn validation_error(message: String) -> (r: ValidationError)
    ensures
        r@ == invalid(message@),
{
    ValidationError::InvalidField { field: "skill".to_owned(), message }
}

/// Builds the error `"{field}{suffix}"`.
pub fn field_error(field: &str, suffix: &str) -> (r: ValidationError)
    ensures
        r@ == invalid(field@ + suffix@),
{
    validation_error(concat(field, suffix))
}

// ---------------------------------------------------------------------
// The specification of each reader.
// ---------------------------------------------------------------------

/// Absent or `null`.
pub open spec fn absent(v: Option<JsonData>) -> bool {
    v is None || v == Some(JsonData::Null)
}

pub open spec fn opt_str(v: Option<JsonData>, field: Seq<char>) -> Result<Option<Seq<char>>, VErr> {
    if absent(v) {
        Ok(None)
    } else {
        match v.unwrap() {
            JsonData::Str(s) => Ok(Some(s)),
            _ => Err(invalid(field + " must be a string."@)),
        }
    }
}

pub open spec fn req_str(v: Option<JsonData>, field: Seq<char>) -> Result<Seq<char>, VErr> {
    match opt_str(v, field) {
        Err(e) => Err(e),
        Ok(Some(s)) => if s.len() > 0 {
            Ok(s)
        } else {
            Err(VErr::Missing(field))
        },
        Ok(None) => Err(VErr::Missing(field)),
    }
}

pub open spec fn opt_nonempty_str(v: Option<JsonData>, field: Seq<char>) -> Result<Option<Seq<char>>, VErr> {
    match opt_str(v, field) {
        Err(e) => Err(e),
        Ok(None) => Ok(None),
        Ok(Some(s)) => if trim(s).len() == 0 {
            Err(invalid(field + " must not be empty."@))
        } else {
            Ok(Some(s))
        },
    }
}

pub open spec fn req_obj(v: Option<JsonData>, field: Seq<char>) -> Result<ObjData, VErr> {
    if absent(v) {
        Err(invalid(field + " is required."@))
    } else {
        match v.unwrap() {
            JsonData::Object(o) => Ok(o),
            _ => Err(invalid(field + " must be an object."@)),
        }
    }
}

pub open spec fn opt_obj(v: Option<JsonData>, field: Seq<char>) -> Result<Option<ObjData>, VErr> {
    if absent(v) {
        Ok(None)
    } else {
        match v.unwrap() {
            JsonData::Object(o) => Ok(Some(o)),
            _ => Err(invalid(field + " must be an object."@)),
        }
    }
}

pub open spec fn is_str(d: JsonData) -> bool {
    d is Str
}

pub open spec fn str_of(d: JsonData) -> Seq<char> {
    match d {
        JsonData::Str(s) => s,
        _ => Seq::empty(),
    }
}

pub open spec fn opt_str_array(v: Option<JsonData>, field: Seq<char>) -> Result<Option<Seq<Seq<char>>>, VErr> {
    if absent(v) {
        Ok(None)
    } else {
        match v.unwrap() {
            JsonData::Array(items) => if forall|i: int| 0 <= i < items.len() ==> is_str(#[trigger] items[i]) {
                Ok(Some(items.map_values(|d: JsonData| str_of(d))))
            } else {
                Err(invalid(field + " must be an array of strings."@))
            },
            _ => Err(invalid(field + " must be an array of strings."@)),
        }
    }
}

pub open spec fn opt_bool(v: Option<JsonData>, field: Seq<char>) -> Result<Option<bool>, VErr> {
    if absent(v) {
        Ok(None)
    } else {
        match v.unwrap() {
            JsonData::Bool(b) => Ok(Some(b)),
            _ => Err(invalid(field + " must be a boolean."@)),
        }
    }
}

/// A whole number in `0..=u64::MAX`. A non-integral number, and one the
/// reader cannot hold, is refused.
pub open spec fn opt_u64(v: Option<JsonData>, field: Seq<char>) -> Result<Option<u64>, VErr> {
    if absent(v) {
        Ok(None)
    } else {
        match v.unwrap() {
            JsonData::Number(NumberData::I64(x)) => if x >= 0 {
                Ok(Some(x as u64))
            } else {
                Err(invalid(field + " must be a positive integer."@))
            },
            JsonData::Number(NumberData::U64(x)) => Ok(Some(x)),
            JsonData::Number(NumberData::F64(_, _, w)) => match w {
                Some(x) => Ok(Some(x)),
                None => Err(invalid(field + " must be a positive integer."@)),
            },
            _ => Err(invalid(field + " must be a finite number."@)),
        }
    }
}

pub open spec fn opt_array(v: Option<JsonData>, field: Seq<char>) -> Result<Option<Seq<JsonData>>, VErr> {
    if absent(v) {
        Ok(None)
    } else {
        match v.unwrap() {
            JsonData::Array(items) => Ok(Some(items)),
            _ => Err(invalid(field + " must be an array when present."@)),
        }
    }
}

/// The left value unless it is absent or `null`.
pub open spec fn first(l: Option<JsonData>, r: Option<JsonData>) -> Option<JsonData> {
    if absent(l) {
        r
    } else {
        l
    }
}

/// The value of `key` in an optional object.
pub open spec fn field_of(o: Option<ObjData>, key: Seq<char>) -> Option<JsonData> {
    match o {
        Some(obj) => lookup(obj, key),
        None => None,
    }
}

/// The value of `key` in a value that is an object.
pub open spec fn nested(v: Option<JsonData>, key: Seq<char>) -> Option<JsonData> {
    match v {
        Some(JsonData::Object(obj)) => lookup(obj, key),
        _ => None,
    }
}

/// The result `r` agrees with the specified outcome `s`: the same error,
/// or a value whose view is the specified one.
pub open spec fn agrees<T, V>(r: Result<T, ValidationError>, s: Result<V, VErr>, view: spec_fn(T) -> V) -> bool {
    match s {
        Ok(x) => r matches Ok(y) && view(y) == x,
        Err(e) => r matches Err(y) && y@ == e,
    }
}

/// Applies `f` to each element in order and collects the results; the
/// first element that `f` refuses refuses the whole sequence.
pub open spec fn map_all<A, B>(s: Seq<A>, f: spec_fn(int, A) -> Result<B, VErr>) -> Result<Seq<B>, VErr>
    decreases s.len(),
{
    if s.len() == 0 {
        Ok(Seq::empty())
    } else {
        match map_all(s.drop_last(), f) {
            Err(e) => Err(e),
            Ok(m) => match f(s.len() - 1, s.last()) {
                Err(e) => Err(e),
                Ok(b) => Ok(m.push(b)),
            },
        }
    }
}

/// One more element: the prefix result extended by `f` on it.
pub proof fn lemma_map_all_step<A, B>(s: Seq<A>, f: spec_fn(int, A) -> Result<B, VErr>, i: int)
    requires
        0 <= i < s.len(),
    ensures
        map_all(s.take(i + 1), f) == (match map_all(s.take(i), f) {
            Err(e) => Err(e),
            Ok(m) => match f(i, s[i]) {
                Err(e) => Err(e),
                Ok(b) => Ok(m.push(b)),
            },
        }),
{
    assert(s.take(i + 1).drop_last() =~= s.take(i));
}

/// A refused prefix refuses the whole sequence with the same error.
pub proof fn lemma_map_all_prefix_err<A, B>(s: Seq<A>, f: spec_fn(int, A) -> Result<B, VErr>, k: int)
    requires
        0 <= k <= s.len(),
        map_all(s.take(k), f) is Err,
    ensures
        map_all(s, f) == map_all(s.take(k), f),
    decreases s.len() - k,
{
    if k < s.len() {
        lemma_map_all_step(s, f, k);
        lemma_map_all_prefix_err(s, f, k + 1);
    } else {
        assert(s.take(k) =~= s);
    }
}

/// The whole sequence is its longest prefix.
pub proof fn lemma_map_all_full<A, B>(s: Seq<A>, f: spec_fn(int, A) -> Result<B, VErr>)
    ensures
        map_all(s.take(s.len() as int), f) == map_all(s, f),
{
    assert(s.take(s.len() as int) =~= s);
}

pub open spec fn opt_obj_view(o: Option<JsonObject>) -> Option<ObjData> {
    match o {
        Some(x) => Some(x.view()),
        None => None,
    }
}

pub open spec fn strings_view(v: Seq<String>) -> Seq<Seq<char>> {
    v.map_values(|s: String| s@)
}

pub open spec fn opt_strings_view(o: Option<Vec<String>>) -> Option<Seq<Seq<char>>> {
    match o {
        Some(v) => Some(strings_view(v@)),
        None => None,
    }
}

// ---------------------------------------------------------------------
// The readers.
// ---------------------------------------------------------------------

fn is_absent(value: Option<&JsonValue>) -> (b: bool)
    ensures
        b == absent(opt_data(value)),
{
    match value {
        None => true,
        Some(JsonValue::Null) => true,
        Some(_) => false,
    }
}

pub fn optional_string(value: Option<&JsonValue>, field: &str) -> (r: Result<Option<String>, ValidationError>)
    ensures
        match opt_str(opt_data(value), field@) {
            Ok(Some(s)) => r matches Ok(Some(x)) && x@ == s,
            Ok(None) => r matches Ok(None),
            Err(e) => r matches Err(x) && x@ == e,
        },
{
    match value {
        None => Ok(None),
        Some(JsonValue::Null) => Ok(None),
        Some(JsonValue::String(s)) => Ok(Some(s.clone())),
        Some(_) => Err(field_error(field, " must be a string.")),
    }
}

pub fn required_string(value: Option<&JsonValue>, field: &str) -> (r: Result<String, ValidationError>)
    ensures
        match req_str(opt_data(value), field@) {
            Ok(s) => r matches Ok(x) && x@ == s,
            Err(e) => r matches Err(x) && x@ == e,
        },
{
    match optional_string(value, field) {
        Err(e) => Err(e),
        Ok(Some(s)) => {
            if !s.as_str().is_empty() {
                Ok(s)
            } else {
                Err(ValidationError::MissingField { field: field.to_owned() })
            }
        },
        Ok(None) => Err(ValidationError::MissingField { field: field.to_owned() }),
    }
}

pub fn optional_non_empty_string(value: Option<&JsonValue>, field: &str) -> (r: Result<Option<String>, ValidationError>)
    ensures
        match opt_nonempty_str(opt_data(value), field@) {
            Ok(Some(s)) => r matches Ok(Some(x)) && x@ == s,
            Ok(None) => r matches Ok(None),
            Err(e) => r matches Err(x) && x@ == e,
        },
{
    match optional_string(value, field) {
        Err(e) => Err(e),
        Ok(None) => Ok(None),
        Ok(Some(s)) => {
            if is_blank(s.as_str()) {
                Err(field_error(field, " must not be empty."))
            } else {
                Ok(Some(s))
            }
        },
    }
}

pub fn required_object<'a>(value: Option<&'a JsonValue>, field: &str) -> (r: Result<&'a JsonObject, ValidationError>)
    ensures
        match req_obj(opt_data(value), field@) {
            Ok(o) => r matches Ok(x) && x.view() == o,
            Err(e) => r matches Err(x) && x@ == e,
        },
{
    match value {
        Some(JsonValue::Object(o)) => Ok(o),
        None => Err(field_error(field, " is required.")),
        Some(JsonValue::Null) => Err(field_error(field, " is required.")),
        Some(_) => Err(field_error(field, " must be an object.")),
    }
}

/// Like `optional_object`, without the copy.
pub fn optional_object_ref<'a>(value: Option<&'a JsonValue>, field: &str) -> (r: Result<Option<&'a JsonObject>, ValidationError>)
    ensures
        match opt_obj(opt_data(value), field@) {
            Ok(Some(o)) => r matches Ok(Some(x)) && x.view() == o,
            Ok(None) => r matches Ok(None),
            Err(e) => r matches Err(x) && x@ == e,
        },
{
    match value {
        None => Ok(None),
        Some(JsonValue::Null) => Ok(None),
        Some(JsonValue::Object(o)) => Ok(Some(o)),
        Some(_) => Err(field_error(field, " must be an object.")),
    }
}

pub fn optional_object(value: Option<&JsonValue>, field: &str) -> (r: Result<Option<JsonObject>, ValidationError>)
    ensures
        match opt_obj(opt_data(value), field@) {
            Ok(Some(o)) => r matches Ok(Some(x)) && x.view() == o,
            Ok(None) => r matches Ok(None),
            Err(e) => r matches Err(x) && x@ == e,
        },
{
    match optional_object_ref(value, field) {
        Ok(Some(o)) => Ok(Some(o.copy())),
        Ok(None) => Ok(None),
        Err(e) => Err(e),
    }
}

pub fn optional_string_array(value: Option<&JsonValue>, field: &str) -> (r: Result<Option<Vec<String>>, ValidationError>)
    ensures
        match opt_str_array(opt_data(value), field@) {
            Ok(Some(s)) => r matches Ok(Some(x)) && strings_view(x@) == s,
            Ok(None) => r matches Ok(None),
            Err(e) => r matches Err(x) && x@ == e,
        },
{
    match value {
        None => Ok(None),
        Some(JsonValue::Null) => Ok(None),
        Some(JsonValue::Array(items)) => {
            proof {
                crate::json::lemma_seq_data(items@);
            }
            let mut out: Vec<String> = Vec::new();
            let mut i: usize = 0;
            while i < items.len()
                invariant
                    i <= items@.len(),
                    opt_data(value) == Some(JsonData::Array(crate::json::seq_data(items@))),
                    out@.len() == i,
                    forall|j: int| 0 <= j < i ==> is_str(#[trigger] items@[j].data())
                        && out@[j]@ == str_of(items@[j].data()),
                decreases items@.len() - i,
            {
                match &items[i] {
                    JsonValue::String(s) => out.push(s.clone()),
                    _ => {
                        proof {
                            crate::json::lemma_seq_data(items@);
                            let d = crate::json::seq_data(items@);
                            assert(!is_str(d[i as int]));
                            assert(opt_data(value) == Some(JsonData::Array(d)));
                            assert(opt_str_array(opt_data(value), field@) == Err::<Option<Seq<Seq<char>>>, VErr>(invalid(field@ + " must be an array of strings."@)));
                        }
                        return Err(field_error(field, " must be an array of strings."));
                    },
                }
                i += 1;
            }
            proof {
                let d = crate::json::seq_data(items@);
                assert forall|j: int| 0 <= j < d.len() implies is_str(#[trigger] d[j]) by {
                    assert(d[j] == items@[j].data());
                }
                assert(strings_view(out@) =~= d.map_values(|x: JsonData| str_of(x)));
            }
            Ok(Some(out))
        },
        Some(_) => Err(field_error(field, " must be an array of strings.")),
    }
}

pub fn optional_bool(value: Option<&JsonValue>, field: &str) -> (r: Result<Option<bool>, ValidationError>)
    ensures
        match opt_bool(opt_data(value), field@) {
            Ok(b) => r matches Ok(x) && x == b,
            Err(e) => r matches Err(x) && x@ == e,
        },
{
    match value {
        None => Ok(None),
        Some(JsonValue::Null) => Ok(None),
        Some(JsonValue::Bool(b)) => Ok(Some(*b)),
        Some(_) => Err(field_error(field, " must be a boolean.")),
    }
}

pub fn optional_u64(value: Option<&JsonValue>, field: &str) -> (r: Result<Option<u64>, ValidationError>)
    ensures
        match opt_u64(opt_data(value), field@) {
            Ok(n) => r matches Ok(x) && x == n,
            Err(e) => r matches Err(x) && x@ == e,
        },
{
    match value {
        None => Ok(None),
        Some(JsonValue::Null) => Ok(None),
        Some(JsonValue::Number(JsonNumber::I64(x))) => {
            if *x >= 0 {
                Ok(Some(*x as u64))
            } else {
                Err(field_error(field, " must be a positive integer."))
            }
        },
        Some(JsonValue::Number(JsonNumber::U64(x))) => Ok(Some(*x)),
        Some(JsonValue::Number(JsonNumber::F64(f))) => match f.nonnegative_whole {
            Some(x) => Ok(Some(x)),
            None => Err(field_error(field, " must be a positive integer.")),
        },
        Some(_) => Err(field_error(field, " must be a finite number.")),
    }
}

pub fn optional_array<'a>(value: Option<&'a JsonValue>, field: &str) -> (r: Result<Option<&'a Vec<JsonValue>>, ValidationError>)
    ensures
        match opt_array(opt_data(value), field@) {
            Ok(Some(items)) => r matches Ok(Some(x)) && crate::json::seq_data(x@) == items,
            Ok(None) => r matches Ok(None),
            Err(e) => r matches Err(x) && x@ == e,
        },
{
    match value {
        None => Ok(None),
        Some(JsonValue::Null) => Ok(None),
        Some(JsonValue::Array(items)) => Ok(Some(items)),
        Some(_) => Err(field_error(field, " must be an array when present.")),
    }
}

pub fn first_value<'a>(left: Option<&'a JsonValue>, right: Option<&'a JsonValue>) -> (r: Option<&'a JsonValue>)
    ensures
        opt_data(r) == first(opt_data(left), opt_data(right)),
{
    if is_absent(left) {
        right
    } else {
        left
    }
}

pub fn field_value<'a>(object: Option<&'a JsonObject>, field: &str) -> (r: Option<&'a JsonValue>)
    ensures
        opt_data(r) == field_of(
            match object {
                Some(o) => Some(o.view()),
                None => None,
            },
            field@,
        ),
{
    match object {
        Some(o) => o.get(field),
        None => None,
    }
}

pub fn nested_value<'a>(value: Option<&'a JsonValue>, field: &str) -> (r: Option<&'a JsonValue>)
    ensures
        opt_data(r) == nested(opt_data(value), field@),
{
    match value {
        Some(JsonValue::Object(o)) => o.get(field),
        _ => None,
    }
}

} // verus!
