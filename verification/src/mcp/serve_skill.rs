//! The input handling of a skill served as an MCP tool: its input schema,
//! defaults, the questions for missing inputs, and the run records.
use vstd::prelude::*;
use crate::json::{JsonData, JsonObject, JsonValue, copy_json, entries_data, lemma_entries_data,
    lemma_seq_data, lookup, opt_data, owned_data, seq_data, spec_insert};
use crate::mcp::protocol::{empty_obj, jstr, sv};
use crate::mcp::server::{McpServerExecutionOptions, McpServerOptions, McpServerSkillExecution,
    McpServerTool, McpServerToolBehavior};
use crate::skill::types::{InputView, SkillInput, ValidatedSkill};
use crate::skill::validate::{input_names_ascending, inputs_view};
use crate::text::{str_lt, chars_of, concat, concat3, decimal, in_set, is_ascii_alnum, is_ascii_alnum_exec, join,
    join_strings, str_eq, string_from_chars, trim_by, trim_chars, u64_decimal};

verus! {

// ---------------------------------------------------------------------
// Identifiers.
// ---------------------------------------------------------------------

pub open spec fn segment_char(c: char) -> char {
    if is_ascii_alnum(c) {
        c
    } else {
        '_'
    }
}

/// An identifier segment: every character but ASCII letters and digits
/// becomes `_`, and leading and trailing `_` are dropped.
pub open spec fn segment(s: Seq<char>) -> Seq<char> {
    trim_by(s.map_values(|c: char| segment_char(c)), in_set(seq!['_']))
}

pub fn identifier_segment(value: &str) -> (r: String)
    ensures
        r@ == segment(value@),
{
    let cs = chars_of(value);
    let mut out: Vec<char> = Vec::new();
    let mut i: usize = 0;
    while i < cs.len()
        invariant
            i <= cs@.len(),
            cs@ == value@,
            out@ == cs@.take(i as int).map_values(|c: char| segment_char(c)),
        decreases cs@.len() - i,
    {
        let c = cs[i];
        out.push(if is_ascii_alnum_exec(c) { c } else { '_' });
        i += 1;
        proof {
            assert(out@ =~= cs@.take(i as int).map_values(|c: char| segment_char(c)));
        }
    }
    proof {
        assert(cs@.take(cs@.len() as int) =~= cs@);
    }
    let mapped = string_from_chars(out.as_slice());
    let under: [char; 1] = ['_'];
    proof {
        assert(under@ =~= seq!['_']);
    }
    trim_chars(mapped.as_str(), &under)
}

/// The run counter of a serving process.
#[derive(Clone, Debug, PartialEq)]
pub struct McpServerState {
    pub next_run_sequence: u64,
}

impl McpServerState {
    pub fn new() -> (r: Self)
        ensures
            r.next_run_sequence == 0,
    {
        McpServerState { next_run_sequence: 0 }
    }

    /// The id of the next run of `skill_name`: `rx_mcp_{segment}_{n}` with
    /// the counter advanced (saturating).
    pub fn next_run_id(&mut self, skill_name: &str) -> (r: String)
        ensures
            final(self).next_run_sequence == (if old(self).next_run_sequence == u64::MAX {
                u64::MAX
            } else {
                (old(self).next_run_sequence + 1) as u64
            }),
            r@ == "rx_mcp_"@ + segment(skill_name@) + "_"@ + decimal(final(self).next_run_sequence as nat),
    {
        if self.next_run_sequence < u64::MAX {
            self.next_run_sequence = self.next_run_sequence + 1;
        }
        let mut r = concat3("rx_mcp_", identifier_segment(skill_name).as_str(), "_");
        r.append(u64_decimal(self.next_run_sequence).as_str());
        r
    }
}

// ---------------------------------------------------------------------
// Input schema.
// ---------------------------------------------------------------------

/// The JSON schema types a skill input may name.
pub open spec fn schema_type(t: Seq<char>) -> bool {
    t == "string"@ || t == "number"@ || t == "integer"@ || t == "boolean"@ || t == "object"@ || t == "array"@
}

pub fn normalize_input_type(input_type: &str) -> (r: Option<&str>)
    ensures
        match r {
            Some(t) => schema_type(input_type@) && t@ == input_type@,
            None => !schema_type(input_type@),
        },
{
    if str_eq(input_type, "string") || str_eq(input_type, "number") || str_eq(input_type, "integer")
        || str_eq(input_type, "boolean") || str_eq(input_type, "object") || str_eq(input_type, "array") {
        Some(input_type)
    } else {
        None
    }
}

/// The schema of one input: its default, description and (known) type.
pub open spec fn input_schema_data(i: InputView) -> Seq<(Seq<char>, JsonData)> {
    let with_default = match i.default {
        Some(d) => seq![("default"@, d)],
        None => Seq::empty(),
    };
    let with_description = match i.description {
        Some(d) => with_default.push(("description"@, sv(d))),
        None => with_default,
    };
    if schema_type(i.input_type) {
        with_description.push(("type"@, sv(i.input_type)))
    } else {
        with_description
    }
}

pub fn skill_input_schema(input: &SkillInput) -> (r: JsonObject)
    ensures
        r.view() == input_schema_data(input@),
{
    let mut entries: Vec<(String, JsonValue)> = Vec::new();
    match &input.default {
        Some(d) => entries.push(("default".to_owned(), copy_json(d))),
        None => {},
    }
    match &input.description {
        Some(d) => entries.push(("description".to_owned(), JsonValue::String(d.clone()))),
        None => {},
    }
    match normalize_input_type(input.input_type.as_str()) {
        Some(t) => entries.push(("type".to_owned(), jstr(t))),
        None => {},
    }
    let r = JsonObject { entries };
    proof {
        lemma_entries_data(r.entries@);
        assert(r.view() =~= input_schema_data(input@));
    }
    r
}

pub open spec fn required_names(inputs: Seq<(Seq<char>, InputView)>) -> Seq<JsonData> {
    inputs.filter(|p: (Seq<char>, InputView)| p.1.required).map_values(|p: (Seq<char>, InputView)| sv(p.0))
}

/// The JSON schema of a skill's inputs: an object with a property per
/// input, the required inputs listed, and no other properties.
pub open spec fn inputs_schema_data(inputs: Seq<(Seq<char>, InputView)>) -> Seq<(Seq<char>, JsonData)> {
    seq![
        ("additionalProperties"@, JsonData::Bool(false)),
        ("properties"@, JsonData::Object(inputs.map_values(|p: (Seq<char>, InputView)| (p.0, JsonData::Object(input_schema_data(p.1)))))),
        ("required"@, JsonData::Array(required_names(inputs))),
        ("type"@, sv("object"@)),
    ]
}

pub fn skill_inputs_to_json_schema(inputs: &Vec<(String, SkillInput)>) -> (r: JsonObject)
    ensures
        r.view() == inputs_schema_data(inputs_view(inputs@)),
{
    let ghost iv = inputs_view(inputs@);
    let mut props: Vec<(String, JsonValue)> = Vec::new();
    let mut required: Vec<JsonValue> = Vec::new();
    let mut i: usize = 0;
    proof {
        lemma_seq_data(required@);
        assert(iv.take(0) =~= Seq::<(Seq<char>, InputView)>::empty());
        assert(seq_data(required@) =~= required_names(iv.take(0)));
    }
    while i < inputs.len()
        invariant
            i <= inputs@.len(),
            iv == inputs_view(inputs@),
            iv.len() == inputs@.len(),
            props@.len() == i,
            forall|j: int| 0 <= j < i ==> (#[trigger] props@[j]).0@ == iv[j].0 && props@[j].1.data() == JsonData::Object(input_schema_data(iv[j].1)),
            seq_data(required@) == required_names(iv.take(i as int)),
        decreases inputs@.len() - i,
    {
        proof {
            assert(iv.take(i + 1).drop_last() =~= iv.take(i as int));
            reveal(Seq::filter);
        }
        let name = &inputs[i].0;
        let input = &inputs[i].1;
        props.push((name.clone(), JsonValue::Object(skill_input_schema(input))));
        let ghost before = required@;
        if input.required {
            required.push(JsonValue::String(name.clone()));
            proof {
                lemma_seq_data(required@);
                lemma_seq_data(before);
                assert(seq_data(required@) =~= seq_data(before).push(sv(name@)));
            }
        }
        proof {
            assert(iv.take(i + 1).filter(|p: (Seq<char>, InputView)| p.1.required) =~= (if iv[i as int].1.required {
                iv.take(i as int).filter(|p: (Seq<char>, InputView)| p.1.required).push(iv[i as int])
            } else {
                iv.take(i as int).filter(|p: (Seq<char>, InputView)| p.1.required)
            }));
            assert(seq_data(required@) =~= required_names(iv.take(i + 1)));
        }
        i += 1;
    }
    let properties = JsonObject { entries: props };
    proof {
        lemma_entries_data(properties.entries@);
        assert(properties.view() =~= iv.map_values(|p: (Seq<char>, InputView)| (p.0, JsonData::Object(input_schema_data(p.1)))));
        assert(iv.take(iv.len() as int) =~= iv);
    }
    let r = JsonObject {
        entries: vec![
            ("additionalProperties".to_owned(), JsonValue::Bool(false)),
            ("properties".to_owned(), JsonValue::Object(properties)),
            ("required".to_owned(), JsonValue::Array(required)),
            ("type".to_owned(), jstr("object")),
        ],
    };
    proof {
        lemma_entries_data(r.entries@);
        assert(r.view() =~= inputs_schema_data(iv));
    }
    r
}

// ---------------------------------------------------------------------
// Defaults and missing inputs.
// ---------------------------------------------------------------------

/// The inputs with each declared default filled in where the input is
/// absent.
pub open spec fn with_defaults(given: Seq<(Seq<char>, JsonData)>, declared: Seq<(Seq<char>, InputView)>) -> Seq<(Seq<char>, JsonData)>
    decreases declared.len(),
{
    if declared.len() == 0 {
        given
    } else {
        let o = with_defaults(given, declared.drop_last());
        let (name, input) = declared.last();
        if lookup(o, name) is None && input.default is Some {
            spec_insert(o, name, input.default.unwrap())
        } else {
            o
        }
    }
}

pub fn apply_input_defaults(skill: &ValidatedSkill, inputs: JsonObject) -> (r: JsonObject)
    requires
        inputs.wf(),
    ensures
        r.view() == with_defaults(inputs.view(), inputs_view(skill.inputs@)),
        r.wf(),
{
    let ghost given = inputs.view();
    let ghost iv = inputs_view(skill.inputs@);
    let mut out = inputs;
    let mut i: usize = 0;
    proof {
        assert(iv.take(0) =~= Seq::<(Seq<char>, InputView)>::empty());
    }
    while i < skill.inputs.len()
        invariant
            i <= skill.inputs@.len(),
            iv == inputs_view(skill.inputs@),
            iv.len() == skill.inputs@.len(),
            out.wf(),
            out.view() == with_defaults(given, iv.take(i as int)),
        decreases skill.inputs@.len() - i,
    {
        proof {
            assert(iv.take(i + 1).drop_last() =~= iv.take(i as int));
            assert(iv.take(i + 1).last() == iv[i as int]);
        }
        let name = &skill.inputs[i].0;
        match &skill.inputs[i].1.default {
            Some(d) => {
                if !out.contains_key(name.as_str()) {
                    out.insert(name.clone(), copy_json(d));
                }
            },
            None => {},
        }
        i += 1;
    }
    proof {
        assert(iv.take(iv.len() as int) =~= iv);
    }
    out
}

/// An input the caller still has to supply: absent, `null` or empty.
pub open spec fn missing(v: Option<JsonData>) -> bool {
    match v {
        None => true,
        Some(JsonData::Null) => true,
        Some(JsonData::Str(s)) => s.len() == 0,
        Some(_) => false,
    }
}

pub fn missing_input(value: Option<&JsonValue>) -> (b: bool)
    ensures
        b == missing(opt_data(value)),
{
    match value {
        None => true,
        Some(JsonValue::Null) => true,
        Some(JsonValue::String(s)) => s.as_str().is_empty(),
        Some(_) => false,
    }
}

/// A question to the caller for one missing input.
#[derive(Clone, Debug, PartialEq)]
pub struct Question {
    pub id: String,
    pub prompt: String,
    pub description: Option<String>,
    pub required: bool,
    pub question_type: String,
}

/// A request to the caller to supply inputs.
#[derive(Clone, Debug, PartialEq)]
pub struct InputResolutionRequest {
    pub id: String,
    pub questions: Vec<Question>,
}

pub struct QuestionView {
    pub id: Seq<char>,
    pub prompt: Seq<char>,
    pub description: Option<Seq<char>>,
    pub question_type: Seq<char>,
}

pub open spec fn question_view(q: Question) -> QuestionView {
    QuestionView {
        id: q.id@,
        prompt: q.prompt@,
        description: crate::reference::opt_str(q.description),
        question_type: q.question_type@,
    }
}

pub open spec fn question_for(name: Seq<char>, i: InputView) -> QuestionView {
    QuestionView {
        id: name,
        prompt: match i.description {
            Some(d) => d,
            None => "Provide "@ + name + "."@,
        },
        description: i.description,
        question_type: i.input_type,
    }
}

/// The questions for the required inputs that are missing, in order.
pub open spec fn questions_for(inputs: Seq<(Seq<char>, JsonData)>, declared: Seq<(Seq<char>, InputView)>) -> Seq<QuestionView>
    decreases declared.len(),
{
    if declared.len() == 0 {
        Seq::empty()
    } else {
        let head = questions_for(inputs, declared.drop_last());
        let (name, input) = declared.last();
        if input.required && missing(lookup(inputs, name)) {
            head.push(question_for(name, input))
        } else {
            head
        }
    }
}

/// The question ids strictly ascend: questions come in name order.
pub open spec fn questions_ascending(qs: Seq<Question>) -> bool {
    forall|a: int, b: int| 0 <= a < b < qs.len() ==> str_lt(#[trigger] qs[a].id@, #[trigger] qs[b].id@)
}

/// The id of an input request: `input.{skill}.{question}...`.
pub open spec fn request_id(skill_name: Seq<char>, questions: Seq<QuestionView>) -> Seq<char> {
    "input."@ + segment(skill_name) + "."@ + join(questions.map_values(|q: QuestionView| segment(q.id)), "."@)
}

/// Asks the caller for every required input that is missing; nothing when
/// none is.
pub fn input_resolution_request(skill: &ValidatedSkill, inputs: &JsonObject) -> (r: Option<InputResolutionRequest>)
    requires
        input_names_ascending(skill.inputs@),
    ensures
        questions_for(inputs.view(), inputs_view(skill.inputs@)).len() == 0 <==> r is None,
        r matches Some(req) ==> req.questions@.map_values(|q: Question| question_view(q)) == questions_for(inputs.view(), inputs_view(skill.inputs@))
            && (forall|j: int| 0 <= j < req.questions@.len() ==> (#[trigger] req.questions@[j]).required)
            && req.id@ == request_id(skill.name@, questions_for(inputs.view(), inputs_view(skill.inputs@)))
            && questions_ascending(req.questions@),
{
    let ghost iv = inputs_view(skill.inputs@);
    let mut questions: Vec<Question> = Vec::new();
    let mut segments: Vec<String> = Vec::new();
    let mut i: usize = 0;
    proof {
        assert(iv.take(0) =~= Seq::<(Seq<char>, InputView)>::empty());
    }
    while i < skill.inputs.len()
        invariant
            i <= skill.inputs@.len(),
            iv == inputs_view(skill.inputs@),
            iv.len() == skill.inputs@.len(),
            questions@.map_values(|q: Question| question_view(q)) == questions_for(inputs.view(), iv.take(i as int)),
            forall|j: int| 0 <= j < questions@.len() ==> (#[trigger] questions@[j]).required,
            segments@.len() == questions@.len(),
            forall|j: int| 0 <= j < segments@.len() ==> #[trigger] segments@[j]@ == segment(questions@[j].id@),
            input_names_ascending(skill.inputs@),
            questions_ascending(questions@),
            forall|j: int, k: int| 0 <= j < questions@.len() && i <= k < skill.inputs@.len() ==> str_lt(
                #[trigger] questions@[j].id@,
                #[trigger] skill.inputs@[k].0@,
            ),
        decreases skill.inputs@.len() - i,
    {
        proof {
            assert(iv.take(i + 1).drop_last() =~= iv.take(i as int));
            assert(iv.take(i + 1).last() == iv[i as int]);
        }
        let name = &skill.inputs[i].0;
        let input = &skill.inputs[i].1;
        if input.required && missing_input(inputs.get(name.as_str())) {
            let prompt = match &input.description {
                Some(d) => d.clone(),
                None => concat3("Provide ", name.as_str(), "."),
            };
            let ghost before = questions@;
            questions.push(Question {
                id: name.clone(),
                prompt,
                description: crate::reference::copy_opt_string(&input.description),
                required: true,
                question_type: input.input_type.clone(),
            });
            segments.push(identifier_segment(name.as_str()));
            proof {
                assert(questions@.map_values(|q: Question| question_view(q)) =~= before.map_values(|q: Question| question_view(q)).push(question_view(questions@.last())));
            }
        }
        i += 1;
    }
    proof {
        assert(iv.take(iv.len() as int) =~= iv);
    }
    if questions.len() == 0 {
        return None;
    }
    let joined = join_strings(&segments, ".");
    let mut id = concat3("input.", identifier_segment(skill.name.as_str()).as_str(), ".");
    id.append(joined.as_str());
    proof {
        let qs = questions_for(inputs.view(), iv);
        assert(segments@.map_values(|p: String| p@) =~= qs.map_values(|q: QuestionView| segment(q.id))) by {
            assert forall|j: int| 0 <= j < qs.len() implies #[trigger] qs[j].id == questions@[j].id@ by {
                assert(questions@.map_values(|q: Question| question_view(q))[j] == question_view(questions@[j]));
            }
        }
    }
    Some(InputResolutionRequest { id, questions })
}

// ---------------------------------------------------------------------
// Run records.
// ---------------------------------------------------------------------

/// The `runx` block of a finished run.
pub open spec fn terminal_runx_data(status: Seq<char>, skill_name: Seq<char>, run_id: Seq<char>, receipt_id: Seq<char>) -> Seq<(Seq<char>, JsonData)> {
    seq![
        ("events"@, JsonData::Array(Seq::empty())),
        ("receiptId"@, sv(receipt_id)),
        ("runId"@, sv(run_id)),
        ("skillName"@, sv(skill_name)),
        ("status"@, sv(status)),
    ]
}

pub fn terminal_runx(status: &str, skill_name: &str, run_id: &str, receipt_id: &str) -> (r: JsonObject)
    ensures
        r.view() == terminal_runx_data(status@, skill_name@, run_id@, receipt_id@),
{
    let events: Vec<JsonValue> = Vec::new();
    proof {
        lemma_seq_data(events@);
    }
    let r = JsonObject {
        entries: vec![
            ("events".to_owned(), JsonValue::Array(events)),
            ("receiptId".to_owned(), jstr(receipt_id)),
            ("runId".to_owned(), jstr(run_id)),
            ("skillName".to_owned(), jstr(skill_name)),
            ("status".to_owned(), jstr(status)),
        ],
    };
    proof {
        lemma_entries_data(r.entries@);
        assert(seq_data(Seq::<JsonValue>::empty()) =~= Seq::<JsonData>::empty());
        assert(r.view() =~= terminal_runx_data(status@, skill_name@, run_id@, receipt_id@));
    }
    r
}

/// The `runx` block of a completed run, with its output.
pub fn completed_runx(skill_name: &str, run_id: &str, receipt_id: &str, stdout: &str) -> (r: JsonObject)
    ensures
        r.view() == seq![
            ("events"@, JsonData::Array(Seq::empty())),
            ("output"@, sv(stdout@)),
            ("receiptId"@, sv(receipt_id@)),
            ("runId"@, sv(run_id@)),
            ("skillName"@, sv(skill_name@)),
            ("status"@, sv("completed"@)),
        ],
{
    let events: Vec<JsonValue> = Vec::new();
    let r = JsonObject {
        entries: vec![
            ("events".to_owned(), JsonValue::Array(events)),
            ("output".to_owned(), jstr(stdout)),
            ("receiptId".to_owned(), jstr(receipt_id)),
            ("runId".to_owned(), jstr(run_id)),
            ("skillName".to_owned(), jstr(skill_name)),
            ("status".to_owned(), jstr("completed")),
        ],
    };
    proof {
        lemma_entries_data(r.entries@);
        lemma_seq_data(Seq::<JsonValue>::empty());
        assert(seq_data(Seq::<JsonValue>::empty()) =~= Seq::<JsonData>::empty());
    }
    r
}

} // verus!
