//! Mapping skill inputs into MCP tool arguments through `{{key}}`
//! templates.
use vstd::prelude::*;
use crate::json::{JsonData, JsonObject, JsonValue, copy_json, overlay, entries_data, lemma_entries_data, lookup,
    opt_data, spec_insert};
use crate::json_text::{json_text, render_json};
use crate::text::{chars_of, is_ascii_alnum, is_ascii_alnum_exec, occurs_at, string_from_chars, trim,
    trim_str};

verus! {

// ---------------------------------------------------------------------
// Finding delimiters.
// ---------------------------------------------------------------------

/// The first position at or after `from` where `needle` occurs.
pub open spec fn find_from(s: Seq<char>, needle: Seq<char>, from: int) -> Option<int>
    decreases s.len() - from,
{
    if from < 0 || from >= s.len() || from + needle.len() > s.len() {
        None
    } else if occurs_at(s, needle, from) {
        Some(from)
    } else {
        find_from(s, needle, from + 1)
    }
}

pub proof fn lemma_find_from_bounds(s: Seq<char>, needle: Seq<char>, from: int)
    ensures
        find_from(s, needle, from) matches Some(i) ==> from <= i && i + needle.len() <= s.len()
            && occurs_at(s, needle, i),
    decreases s.len() - from,
{
    if !(from < 0 || from >= s.len() || from + needle.len() > s.len()) && !occurs_at(s, needle, from) {
        lemma_find_from_bounds(s, needle, from + 1);
    }
}

fn occurs_at_vec(hay: &Vec<char>, needle: &Vec<char>, i: usize) -> (b: bool)
    requires
        i + needle@.len() <= hay@.len(),
    ensures
        b == occurs_at(hay@, needle@, i as int),
{
    let mut j: usize = 0;
    while j < needle.len()
        invariant
            j <= needle@.len(),
            i + needle@.len() <= hay@.len(),
            hay@.len() == hay.len(),
            forall|k: int| 0 <= k < j ==> hay@[i + k] == needle@[k],
        decreases needle@.len() - j,
    {
        if hay[i + j] != needle[j] {
            proof {
                assert(hay@.subrange(i as int, i + needle@.len())[j as int] != needle@[j as int]);
            }
            return false;
        }
        j += 1;
    }
    proof {
        assert(hay@.subrange(i as int, i + needle@.len()) =~= needle@);
    }
    true
}

/// The first position at or after `from` where `needle` occurs.
pub fn find_from_exec(hay: &Vec<char>, needle: &Vec<char>, from: usize) -> (r: Option<usize>)
    requires
        needle@.len() > 0,
    ensures
        match r {
            Some(i) => find_from(hay@, needle@, from as int) == Some(i as int),
            None => find_from(hay@, needle@, from as int) is None,
        },
{
    let mut i = from;
    while i < hay.len() && needle.len() <= hay.len() - i
        invariant
            from <= i,
            needle@.len() > 0,
            find_from(hay@, needle@, from as int) == find_from(hay@, needle@, i as int),
        decreases hay@.len() + 1 - i,
    {
        if occurs_at_vec(hay, needle, i) {
            return Some(i);
        }
        i += 1;
    }
    None
}

// ---------------------------------------------------------------------
// Keys and values.
// ---------------------------------------------------------------------

pub open spec fn key_char(c: char) -> bool {
    is_ascii_alnum(c) || c == '_' || c == '.' || c == '-'
}

/// A template key: non-empty, of ASCII letters, digits, `_`, `.` and `-`.
pub open spec fn valid_key(k: Seq<char>) -> bool {
    k.len() > 0 && forall|i: int| 0 <= i < k.len() ==> key_char(#[trigger] k[i])
}

pub fn valid_template_key(key: &str) -> (b: bool)
    ensures
        b == valid_key(key@),
{
    let cs = chars_of(key);
    if cs.len() == 0 {
        return false;
    }
    let mut i: usize = 0;
    while i < cs.len()
        invariant
            i <= cs@.len(),
            cs@ == key@,
            forall|j: int| 0 <= j < i ==> key_char(#[trigger] cs@[j]),
        decreases cs@.len() - i,
    {
        let c = cs[i];
        if !(is_ascii_alnum_exec(c) || c == '_' || c == '.' || c == '-') {
            return false;
        }
        i += 1;
    }
    true
}

/// The key of a template that is exactly one `{{key}}`, whitespace around
/// it and the key allowed.
pub open spec fn exact_key(t: Seq<char>) -> Option<Seq<char>> {
    let tr = trim(t);
    if tr.len() >= 4 && tr.take(2) == "{{"@ && tr.skip(tr.len() - 2) == "}}"@ {
        let inner = trim(tr.subrange(2, tr.len() - 2));
        if valid_key(inner) {
            Some(inner)
        } else {
            None
        }
    } else {
        None
    }
}

pub fn exact_template_key(template: &str) -> (r: Option<String>)
    ensures
        match exact_key(template@) {
            Some(k) => r matches Some(x) && x@ == k,
            None => r is None,
        },
{
    proof {
        reveal_strlit("{{");
        reveal_strlit("}}");
    }
    let tr = trim_str(template);
    let cs = chars_of(tr.as_str());
    let n = cs.len();
    if n < 4 || cs[0] != '{' || cs[1] != '{' || cs[n - 2] != '}' || cs[n - 1] != '}' {
        proof {
            if n >= 4 {
                if cs@.take(2) == "{{"@ {
                    assert(cs@.take(2)[0] == '{' && cs@.take(2)[1] == '{');
                }
                if cs@.skip(n - 2) == "}}"@ {
                    assert(cs@.skip(n - 2)[0] == '}' && cs@.skip(n - 2)[1] == '}');
                }
            }
        }
        return None;
    }
    proof {
        assert(cs@.take(2) =~= "{{"@);
        assert(cs@.skip(n - 2) =~= "}}"@);
    }
    let mut middle: Vec<char> = Vec::new();
    let mut i: usize = 2;
    while i < n - 2
        invariant
            2 <= i <= n - 2,
            n == cs@.len(),
            middle@ =~= cs@.subrange(2, i as int),
        decreases n - 2 - i,
    {
        middle.push(cs[i]);
        i += 1;
    }
    let m = string_from_chars(middle.as_slice());
    let inner = trim_str(m.as_str());
    if valid_template_key(inner.as_str()) {
        Some(inner)
    } else {
        None
    }
}

/// The value for `key`: a resolved input wins over a plain input.
pub open spec fn pick(inputs: Seq<(Seq<char>, JsonData)>, resolved: Seq<(Seq<char>, JsonData)>, key: Seq<char>) -> Option<JsonData> {
    match lookup(resolved, key) {
        Some(v) => Some(v),
        None => lookup(inputs, key),
    }
}

fn pick_exec<'a>(inputs: &'a JsonObject, resolved: &'a JsonObject, key: &str) -> (r: Option<&'a JsonValue>)
    ensures
        opt_data(r) == pick(inputs.view(), resolved.view(), key@),
{
    match resolved.get(key) {
        Some(v) => Some(v),
        None => inputs.get(key),
    }
}

/// How an input value reads inside a template: absent and `null` read as
/// nothing, a string as itself, anything else as its JSON text.
pub open spec fn input_text(v: Option<JsonData>) -> Seq<char> {
    match v {
        None => Seq::empty(),
        Some(JsonData::Null) => Seq::empty(),
        Some(JsonData::Str(s)) => s,
        Some(d) => json_text(d),
    }
}

pub fn stringify_mcp_input(value: Option<&JsonValue>) -> (r: String)
    ensures
        r@ == input_text(opt_data(value)),
{
    match value {
        None => String::new(),
        Some(JsonValue::Null) => String::new(),
        Some(JsonValue::String(s)) => s.clone(),
        Some(v) => render_json(v),
    }
}

// ---------------------------------------------------------------------
// Rendering.
// ---------------------------------------------------------------------

/// The rendering of `t` from position `pos`: each `{{key}}` with a valid
/// (trimmed) key is replaced by its input's text; an invalid key stays as
/// written; an unclosed `{{` and everything after it stay as written.
pub open spec fn render_at(
    t: Seq<char>,
    pos: int,
    inputs: Seq<(Seq<char>, JsonData)>,
    resolved: Seq<(Seq<char>, JsonData)>,
) -> Seq<char>
    decreases t.len() - pos,
{
    if pos < 0 || pos > t.len() {
        Seq::empty()
    } else {
        match find_from(t, "{{"@, pos) {
            None => t.subrange(pos, t.len() as int),
            Some(start) => if start < pos || start + 2 > t.len() {
                Seq::empty()
            } else {
                let prefix = t.subrange(pos, start);
                match find_from(t, "}}"@, start + 2) {
                    None => prefix + "{{"@ + t.subrange(start + 2, t.len() as int),
                    Some(end) => if end < start + 2 || end + 2 > t.len() {
                        Seq::empty()
                    } else {
                        let raw = t.subrange(start + 2, end);
                        let key = trim(raw);
                        let piece = if valid_key(key) {
                            input_text(pick(inputs, resolved, key))
                        } else {
                            "{{"@ + raw + "}}"@
                        };
                        prefix + piece + render_at(t, end + 2, inputs, resolved)
                    },
                }
            },
        }
    }
}

/// What a template string maps to.
pub open spec fn template_value(
    t: Seq<char>,
    inputs: Seq<(Seq<char>, JsonData)>,
    resolved: Seq<(Seq<char>, JsonData)>,
) -> JsonData {
    match exact_key(t) {
        Some(k) => match pick(inputs, resolved, k) {
            Some(v) => v,
            None => JsonData::Null,
        },
        None => JsonData::Str(render_at(t, 0, inputs, resolved)),
    }
}

fn push_all(out: &mut Vec<char>, s: &str)
    ensures
        final(out)@ == old(out)@ + s@,
{
    let mut cs = chars_of(s);
    out.append(&mut cs);
}

fn push_range(out: &mut Vec<char>, t: &Vec<char>, from: usize, to: usize)
    requires
        from <= to <= t@.len(),
    ensures
        final(out)@ == old(out)@ + t@.subrange(from as int, to as int),
{
    let ghost start = out@;
    let mut i = from;
    while i < to
        invariant
            from <= i <= to <= t@.len(),
            out@ == start + t@.subrange(from as int, i as int),
        decreases to - i,
    {
        out.push(t[i]);
        i += 1;
        proof {
            assert(out@ =~= start + t@.subrange(from as int, i as int));
        }
    }
}

fn range_string(t: &Vec<char>, from: usize, to: usize) -> (r: String)
    requires
        from <= to <= t@.len(),
    ensures
        r@ == t@.subrange(from as int, to as int),
{
    let mut v: Vec<char> = Vec::new();
    push_range(&mut v, t, from, to);
    proof {
        assert(v@ =~= t@.subrange(from as int, to as int));
    }
    string_from_chars(v.as_slice())
}

/// Renders a template string from `{{key}}` placeholders.
#[verifier::loop_isolation(false)]
pub fn render_template(template: &str, inputs: &JsonObject, resolved_inputs: &JsonObject) -> (r: String)
    ensures
        r@ == render_at(template@, 0, inputs.view(), resolved_inputs.view()),
{
    proof {
        reveal_strlit("{{");
        reveal_strlit("}}");
    }
    let t = chars_of(template);
    let open: Vec<char> = vec!['{', '{'];
    let close: Vec<char> = vec!['}', '}'];
    proof {
        assert(open@ =~= "{{"@);
        assert(close@ =~= "}}"@);
    }
    let ghost full = render_at(t@, 0, inputs.view(), resolved_inputs.view());
    let mut out: Vec<char> = Vec::new();
    let mut pos: usize = 0;
    loop
        invariant
            pos <= t@.len(),
            t@.len() == t.len(),
            t@ == template@,
            open@ == "{{"@,
            close@ == "}}"@,
            "{{"@.len() == 2,
            "}}"@.len() == 2,
            full == render_at(t@, 0, inputs.view(), resolved_inputs.view()),
            out@ + render_at(t@, pos as int, inputs.view(), resolved_inputs.view()) == full,
        decreases t@.len() - pos,
    {
        proof {
            lemma_find_from_bounds(t@, "{{"@, pos as int);
        }
        let start = match find_from_exec(&t, &open, pos) {
            None => {
                push_range(&mut out, &t, pos, t.len());
                proof {
                    assert(out@ == full);
                }
                break;
            },
            Some(s) => s,
        };
        proof {
            lemma_find_from_bounds(t@, "{{"@, start + 2);
        }
        push_range(&mut out, &t, pos, start);
        match find_from_exec(&t, &close, start + 2) {
            None => {
                push_all(&mut out, "{{");
                push_range(&mut out, &t, start + 2, t.len());
                proof {
                    assert(out@ =~= full);
                }
                break;
            },
            Some(end) => {
                proof {
                    lemma_find_from_bounds(t@, "}}"@, start + 2);
                }
                let raw = range_string(&t, start + 2, end);
                let key = trim_str(raw.as_str());
                let ghost before = out@;
                if valid_template_key(key.as_str()) {
                    let text = stringify_mcp_input(pick_exec(inputs, resolved_inputs, key.as_str()));
                    push_all(&mut out, text.as_str());
                } else {
                    push_all(&mut out, "{{");
                    push_all(&mut out, raw.as_str());
                    push_all(&mut out, "}}");
                }
                proof {
                    assert(out@ + render_at(t@, end + 2, inputs.view(), resolved_inputs.view()) =~= full);
                }
                pos = end + 2;
            },
        }
    }
    string_from_chars(out.as_slice())
}

/// Maps one template string: a template that is exactly one `{{key}}`
/// takes that input's value (or `null`); any other is rendered as text.
pub fn map_template_string(template: &str, inputs: &JsonObject, resolved_inputs: &JsonObject) -> (r: JsonValue)
    ensures
        r.data() == template_value(template@, inputs.view(), resolved_inputs.view()),
{
    match exact_template_key(template) {
        Some(k) => match pick_exec(inputs, resolved_inputs, k.as_str()) {
            Some(v) => copy_json(v),
            None => JsonValue::Null,
        },
        None => JsonValue::String(render_template(template, inputs, resolved_inputs)),
    }
}

/// The arguments a template maps to: each string value is mapped as a
/// template, other values are kept.
pub open spec fn mapped_entries(
    template: Seq<(Seq<char>, JsonData)>,
    inputs: Seq<(Seq<char>, JsonData)>,
    resolved: Seq<(Seq<char>, JsonData)>,
) -> Seq<(Seq<char>, JsonData)> {
    template.map_values(|e: (Seq<char>, JsonData)| (e.0, match e.1 {
        JsonData::Str(s) => template_value(s, inputs, resolved),
        other => other,
    }))
}

/// The arguments of an MCP tool call. Without a template, the inputs with
/// the resolved inputs laid over them; with one, the template mapped.
pub fn map_mcp_arguments(argument_template: Option<&JsonObject>, inputs: &JsonObject, resolved_inputs: &JsonObject) -> (r: JsonObject)
    requires
        inputs.wf(),
    ensures
        match argument_template {
            None => r.view() == overlay(inputs.view(), resolved_inputs.view()),
            Some(t) => r.view() == mapped_entries(t.view(), inputs.view(), resolved_inputs.view()),
        },
{
    match argument_template {
        None => {
            let mut merged = inputs.copy();
            proof {
                lemma_entries_data(resolved_inputs.entries@);
            }
            let ghost over = resolved_inputs.view();
            let mut i: usize = 0;
            while i < resolved_inputs.entries.len()
                invariant
                    i <= resolved_inputs.entries@.len(),
                    over == resolved_inputs.view(),
                    over.len() == resolved_inputs.entries@.len(),
                    forall|j: int| 0 <= j < over.len() ==> #[trigger] over[j] == (resolved_inputs.entries@[j].0@, resolved_inputs.entries@[j].1.data()),
                    merged.wf(),
                    merged.view() == overlay(inputs.view(), over.take(i as int)),
                decreases resolved_inputs.entries@.len() - i,
            {
                proof {
                    assert(over.take(i + 1).drop_last() =~= over.take(i as int));
                }
                let k = resolved_inputs.entries[i].0.clone();
                let v = copy_json(&resolved_inputs.entries[i].1);
                merged.insert(k, v);
                i += 1;
            }
            proof {
                assert(over.take(over.len() as int) =~= over);
            }
            merged
        },
        Some(template) => {
            proof {
                lemma_entries_data(template.entries@);
            }
            let ghost es = template.view();
            let mut out: Vec<(String, JsonValue)> = Vec::new();
            let mut i: usize = 0;
            while i < template.entries.len()
                invariant
                    i <= template.entries@.len(),
                    es == template.view(),
                    es.len() == template.entries@.len(),
                    forall|j: int| 0 <= j < es.len() ==> #[trigger] es[j] == (template.entries@[j].0@, template.entries@[j].1.data()),
                    out@.len() == i,
                    forall|j: int| 0 <= j < i ==> (#[trigger] out@[j]).0@ == mapped_entries(es, inputs.view(), resolved_inputs.view())[j].0 && out@[j].1.data() == mapped_entries(es, inputs.view(), resolved_inputs.view())[j].1,
                decreases template.entries@.len() - i,
            {
                let k = template.entries[i].0.clone();
                let v = match &template.entries[i].1 {
                    JsonValue::String(s) => map_template_string(s.as_str(), inputs, resolved_inputs),
                    other => copy_json(other),
                };
                out.push((k, v));
                i += 1;
            }
            let r = JsonObject { entries: out };
            proof {
                lemma_entries_data(r.entries@);
                assert(r.view() =~= mapped_entries(es, inputs.view(), resolved_inputs.view()));
            }
            r
        },
    }
}

} // verus!
