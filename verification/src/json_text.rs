//! The compact JSON text of a value: no whitespace, strings escaped as
//! JSON requires, object members in key order, and a non-integral number
//! in its carried rendering.
use vstd::prelude::*;
use crate::json::{JsonData, JsonNumber, JsonObject, JsonValue, NumberData, entries_data, lemma_entries_data,
    key_sorted, lemma_insert_by_key_at,
    lemma_seq_data, seq_data};
use crate::text::{decimal, digit_char, signed_decimal, string_from_chars, decimal_chars, signed_decimal_chars,
    str_lt, str_lt_exec};

verus! {

pub open spec fn hex_digit(n: nat) -> char {
    if n < 10 {
        digit_char(n)
    } else {
        ((n + 87) as u8) as char
    }
}

/// How one character appears inside a JSON string.
pub open spec fn escape_char(c: char) -> Seq<char> {
    if c == '"' {
        seq!['\\', '"']
    } else if c == '\\' {
        seq!['\\', '\\']
    } else if c == '\u{8}' {
        seq!['\\', 'b']
    } else if c == '\u{c}' {
        seq!['\\', 'f']
    } else if c == '\n' {
        seq!['\\', 'n']
    } else if c == '\r' {
        seq!['\\', 'r']
    } else if c == '\t' {
        seq!['\\', 't']
    } else if (c as u32) < 0x20 {
        seq!['\\', 'u', '0', '0', hex_digit((c as u32 as nat) / 16), hex_digit((c as u32 as nat) % 16)]
    } else {
        seq![c]
    }
}

pub open spec fn escaped(s: Seq<char>) -> Seq<char>
    decreases s.len(),
{
    if s.len() == 0 {
        Seq::empty()
    } else {
        escaped(s.drop_last()) + escape_char(s.last())
    }
}

/// A JSON string literal.
pub open spec fn quoted(s: Seq<char>) -> Seq<char> {
    seq!['"'] + escaped(s) + seq!['"']
}

pub open spec fn number_text(n: NumberData) -> Seq<char> {
    match n {
        NumberData::I64(v) => signed_decimal(v as int),
        NumberData::U64(v) => decimal(v as nat),
        NumberData::F64(rendered, _, _) => rendered,
    }
}

/// The compact JSON text of a value.
pub open spec fn json_text(d: JsonData) -> Seq<char>
    decreases d,
{
    match d {
        JsonData::Null => "null"@,
        JsonData::Bool(b) => if b {
            "true"@
        } else {
            "false"@
        },
        JsonData::Number(n) => number_text(n),
        JsonData::Str(s) => quoted(s),
        JsonData::Array(items) => seq!['['] + items_text(items) + seq![']'],
        JsonData::Object(es) => seq!['{'] + joined_members(key_sorted(member_texts(es))) + seq!['}'],
    }
}

/// The texts of `items`, separated by commas.
pub open spec fn items_text(items: Seq<JsonData>) -> Seq<char>
    decreases items,
{
    if items.len() == 0 {
        Seq::empty()
    } else {
        let head = if items.len() == 1 {
            Seq::empty()
        } else {
            items_text(items.drop_last()) + seq![',']
        };
        head + json_text(items.last())
    }
}

/// Each member's key with the JSON text of its value, in entry order.
pub open spec fn member_texts(es: Seq<(Seq<char>, JsonData)>) -> Seq<(Seq<char>, Seq<char>)>
    decreases es,
{
    if es.len() == 0 {
        Seq::empty()
    } else {
        member_texts(es.drop_last()).push((es.last().0, json_text(es.last().1)))
    }
}

/// The members `"key":text`, separated by commas.
pub open spec fn joined_members(ps: Seq<(Seq<char>, Seq<char>)>) -> Seq<char>
    decreases ps.len(),
{
    if ps.len() == 0 {
        Seq::empty()
    } else {
        let head = if ps.len() == 1 {
            Seq::empty()
        } else {
            joined_members(ps.drop_last()) + seq![',']
        };
        head + quoted(ps.last().0) + seq![':'] + ps.last().1
    }
}

fn hex_digit_exec(n: u32) -> (c: char)
    requires
        n < 16,
    ensures
        c == hex_digit(n as nat),
{
    if n < 10 {
        ((n as u8) + 48) as char
    } else {
        ((n as u8) + 87) as char
    }
}

fn push_escaped_char(out: &mut Vec<char>, c: char)
    ensures
        final(out)@ == old(out)@ + escape_char(c),
{
    let ghost start = out@;
    if c == '"' {
        out.push('\\');
        out.push('"');
    } else if c == '\\' {
        out.push('\\');
        out.push('\\');
    } else if c == '\u{8}' {
        out.push('\\');
        out.push('b');
    } else if c == '\u{c}' {
        out.push('\\');
        out.push('f');
    } else if c == '\n' {
        out.push('\\');
        out.push('n');
    } else if c == '\r' {
        out.push('\\');
        out.push('r');
    } else if c == '\t' {
        out.push('\\');
        out.push('t');
    } else if (c as u32) < 0x20 {
        let code = c as u32;
        out.push('\\');
        out.push('u');
        out.push('0');
        out.push('0');
        out.push(hex_digit_exec(code / 16));
        out.push(hex_digit_exec(code % 16));
    } else {
        out.push(c);
    }
    assert(out@ =~= start + escape_char(c));
}

/// Appends the JSON string literal of `s`.
pub fn push_quoted(out: &mut Vec<char>, s: &str)
    ensures
        final(out)@ == old(out)@ + quoted(s@),
{
    let chars = crate::text::chars_of(s);
    let ghost start = out@;
    out.push('"');
    let mut i: usize = 0;
    while i < chars.len()
        invariant
            i <= chars@.len(),
            chars@ == s@,
            out@ == start + seq!['"'] + escaped(chars@.take(i as int)),
        decreases chars@.len() - i,
    {
        proof {
            assert(chars@.take(i + 1).drop_last() =~= chars@.take(i as int));
        }
        push_escaped_char(out, chars[i]);
        i += 1;
        proof {
            assert(out@ =~= start + seq!['"'] + escaped(chars@.take(i as int)));
        }
    }
    out.push('"');
    proof {
        assert(chars@.take(chars@.len() as int) =~= s@);
        assert(out@ =~= start + quoted(s@));
    }
}

fn push_str(out: &mut Vec<char>, s: &str)
    ensures
        final(out)@ == old(out)@ + s@,
{
    let chars = crate::text::chars_of(s);
    let ghost start = out@;
    let mut i: usize = 0;
    while i < chars.len()
        invariant
            i <= chars@.len(),
            chars@ == s@,
            out@ == start + chars@.take(i as int),
        decreases chars@.len() - i,
    {
        out.push(chars[i]);
        i += 1;
        proof {
            assert(out@ =~= start + chars@.take(i as int));
        }
    }
    proof {
        assert(chars@.take(chars@.len() as int) =~= s@);
    }
}

fn push_chars(out: &mut Vec<char>, v: Vec<char>)
    ensures
        final(out)@ == old(out)@ + v@,
{
    let mut v = v;
    out.append(&mut v);
}

/// Appends the JSON text of `v`.
#[verifier::loop_isolation(false)]
pub fn write_json(out: &mut Vec<char>, v: &JsonValue)
    ensures
        final(out)@ == old(out)@ + json_text(v.data()),
    decreases v,
{
    let ghost start = out@;
    match v {
        JsonValue::Null => push_str(out, "null"),
        JsonValue::Bool(b) => {
            if *b {
                push_str(out, "true")
            } else {
                push_str(out, "false")
            }
        },
        JsonValue::Number(n) => match n {
            JsonNumber::I64(x) => push_chars(out, signed_decimal_chars(*x)),
            JsonNumber::U64(x) => push_chars(out, decimal_chars(*x)),
            JsonNumber::F64(f) => push_str(out, f.rendered.as_str()),
        },
        JsonValue::String(s) => push_quoted(out, s.as_str()),
        JsonValue::Array(items) => {
            proof {
                lemma_seq_data(items@);
            }
            let ghost d = seq_data(items@);
            out.push('[');
            let mut i: usize = 0;
            while i < items.len()
                invariant
                    i <= items.len(),
                    d == seq_data(items@),
                    out@ == start + seq!['['] + items_text(d.take(i as int)),
                decreases items.len() - i,
            {
                proof {
                    assert(*items == (*v)->Array_0);
                    assert(decreases_to!(*v => (*v)->Array_0));
                    assert(decreases_to!(*items => items@));
                    assert(decreases_to!(items@ => items@[i as int]));
                    assert(d.take(i + 1).drop_last() =~= d.take(i as int));
                    assert(d.take(i + 1).last() == items@[i as int].data());
                }
                if i > 0 {
                    out.push(',');
                }
                write_json(out, &items[i]);
                i += 1;
                proof {
                    assert(out@ =~= start + seq!['['] + items_text(d.take(i as int)));
                }
            }
            out.push(']');
            proof {
                assert(d.take(items@.len() as int) =~= d);
                assert(out@ =~= start + json_text(v.data()));
            }
        },
        JsonValue::Object(o) => {
            proof {
                assert(*o == (*v)->Object_0);
                assert(decreases_to!(*v => (*v)->Object_0));
                assert(decreases_to!(*o => o.entries));
            }
            out.push('{');
            write_members(out, o, Ghost(*v));
            out.push('}');
            proof {
                assert(out@ =~= start + json_text(v.data()));
            }
        },
    }
}

pub open spec fn pairs_view(v: Seq<(String, Vec<char>)>) -> Seq<(Seq<char>, Seq<char>)> {
    v.map_values(|p: (String, Vec<char>)| (p.0@, p.1@))
}

fn push_all(out: &mut Vec<char>, v: &Vec<char>)
    ensures
        final(out)@ == old(out)@ + v@,
{
    let ghost start = out@;
    let mut i: usize = 0;
    while i < v.len()
        invariant
            i <= v@.len(),
            out@ == start + v@.take(i as int),
        decreases v@.len() - i,
    {
        out.push(v[i]);
        i += 1;
        proof {
            assert(out@ =~= start + v@.take(i as int));
        }
    }
    proof {
        assert(v@.take(v@.len() as int) =~= v@);
    }
}

#[verifier::loop_isolation(false)]
fn write_members(out: &mut Vec<char>, o: &JsonObject, Ghost(parent): Ghost<JsonValue>)
    requires
        decreases_to!(parent => o.entries),
    ensures
        final(out)@ == old(out)@ + joined_members(key_sorted(member_texts(o.view()))),
    decreases parent, 1nat,
{
    proof {
        lemma_entries_data(o.entries@);
    }
    let ghost es = o.view();
    let ghost start = out@;
    let mut sorted: Vec<(String, Vec<char>)> = Vec::new();
    let mut i: usize = 0;
    proof {
        assert(es.take(0) =~= Seq::<(Seq<char>, JsonData)>::empty());
        assert(pairs_view(sorted@) =~= Seq::<(Seq<char>, Seq<char>)>::empty());
    }
    while i < o.entries.len()
        invariant
            i <= o.entries.len(),
            es == o.view(),
            out@ == start,
            pairs_view(sorted@) == key_sorted(member_texts(es.take(i as int))),
        decreases o.entries.len() - i,
    {
        proof {
            assert(decreases_to!(o.entries => o.entries@));
            assert(decreases_to!(o.entries@ => o.entries@[i as int]));
            assert(decreases_to!(o.entries@[i as int] => o.entries@[i as int].1));
            assert(es.take(i + 1).drop_last() =~= es.take(i as int));
            assert(es.take(i + 1).last() == (o.entries@[i as int].0@, o.entries@[i as int].1.data()));
        }
        let mut text: Vec<char> = Vec::new();
        write_json(&mut text, &o.entries[i].1);
        let key = o.entries[i].0.clone();
        let ghost e = (key@, text@);
        let ghost before = pairs_view(sorted@);
        let mut j: usize = sorted.len();
        loop
            invariant
                j <= sorted@.len(),
                before == pairs_view(sorted@),
                e == (key@, text@),
                forall|k: int| j <= k < before.len() ==> str_lt(e.0, #[trigger] before[k].0),
            decreases j,
        {
            if j == 0 {
                break;
            }
            let later = str_lt_exec(key.as_str(), sorted[j - 1].0.as_str());
            if !later {
                break;
            }
            j -= 1;
        }
        proof {
            lemma_insert_by_key_at(before, e, j as int);
            assert(member_texts(es.take(i + 1)) == member_texts(es.take(i as int)).push(e));
            assert(member_texts(es.take(i + 1)).drop_last() =~= member_texts(es.take(i as int)));
        }
        sorted.insert(j, (key, text));
        proof {
            assert(pairs_view(sorted@) =~= before.insert(j as int, e));
        }
        i += 1;
    }
    proof {
        assert(es.take(o.entries@.len() as int) =~= es);
    }
    let ghost ps = pairs_view(sorted@);
    let mut k: usize = 0;
    proof {
        assert(ps.take(0) =~= Seq::<(Seq<char>, Seq<char>)>::empty());
    }
    while k < sorted.len()
        invariant
            k <= sorted@.len(),
            ps == pairs_view(sorted@),
            ps == key_sorted(member_texts(es)),
            out@ == start + joined_members(ps.take(k as int)),
        decreases sorted@.len() - k,
    {
        proof {
            assert(ps.take(k + 1).drop_last() =~= ps.take(k as int));
            assert(ps.take(k + 1).last() == (sorted@[k as int].0@, sorted@[k as int].1@));
        }
        if k > 0 {
            out.push(',');
        }
        push_quoted(out, sorted[k].0.as_str());
        out.push(':');
        push_all(out, &sorted[k].1);
        k += 1;
        proof {
            assert(out@ =~= start + joined_members(ps.take(k as int)));
        }
    }
    proof {
        assert(ps.take(sorted@.len() as int) =~= ps);
    }
}

/// The compact JSON text of `v`.
pub fn render_json(v: &JsonValue) -> (r: String)
    ensures
        r@ == json_text(v.data()),
{
    let mut out: Vec<char> = Vec::new();
    write_json(&mut out, v);
    proof {
        assert(out@ =~= json_text(v.data()));
    }
    string_from_chars(out.as_slice())
}

} // verus!
