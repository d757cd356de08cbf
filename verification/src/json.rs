//! A JSON document model: values, numbers and objects, with a mathematical
//! view (`JsonData`) that contracts speak of.
use vstd::prelude::*;
use crate::text::{str_lt, str_lt_exec, lemma_str_lt_total, lemma_str_lt_transitive};

verus! {

/// A JSON number held as a float, by the facts the library reads from it:
/// its JSON text, its display text (as `f64` displays), and, when it is a
/// whole number in `0..=u64::MAX`, that whole number.
#[derive(Clone, Debug, PartialEq)]
pub struct FloatNumber {
    pub rendered: String,
    pub display: String,
    pub nonnegative_whole: Option<u64>,
}

#[derive(Clone, Debug, PartialEq)]
pub enum JsonNumber {
    I64(i64),
    U64(u64),
    F64(FloatNumber),
}

#[derive(Debug, PartialEq)]
pub enum JsonValue {
    Null,
    Bool(bool),
    Number(JsonNumber),
    String(String),
    Array(Vec<JsonValue>),
    Object(JsonObject),
}

/// A JSON object: entries in order, keys pairwise distinct.
#[derive(Debug, PartialEq)]
pub struct JsonObject {
    pub entries: Vec<(String, JsonValue)>,
}

/// The mathematical view of a JSON number.
pub enum NumberData {
    I64(i64),
    U64(u64),
    F64(Seq<char>, Seq<char>, Option<u64>),
}

/// The mathematical view of a JSON value.
pub enum JsonData {
    Null,
    Bool(bool),
    Number(NumberData),
    Str(Seq<char>),
    Array(Seq<JsonData>),
    Object(Seq<(Seq<char>, JsonData)>),
}

impl JsonNumber {
    pub open spec fn data(self) -> NumberData {
        match self {
            JsonNumber::I64(v) => NumberData::I64(v),
            JsonNumber::U64(v) => NumberData::U64(v),
            JsonNumber::F64(f) => NumberData::F64(f.rendered@, f.display@, f.nonnegative_whole),
        }
    }
}

impl JsonValue {
    pub open spec fn data(self) -> JsonData
        decreases self,
    {
        match self {
            JsonValue::Null => JsonData::Null,
            JsonValue::Bool(b) => JsonData::Bool(b),
            JsonValue::Number(n) => JsonData::Number(n.data()),
            JsonValue::String(s) => JsonData::Str(s@),
            JsonValue::Array(items) => JsonData::Array(seq_data(items@)),
            JsonValue::Object(o) => JsonData::Object(entries_data(o.entries@)),
        }
    }
}

impl JsonObject {
    pub open spec fn view(self) -> Seq<(Seq<char>, JsonData)> {
        entries_data(self.entries@)
    }

    /// Keys are pairwise distinct.
    pub open spec fn wf(self) -> bool {
        keys_distinct(self.view())
    }
}

pub open spec fn seq_data(s: Seq<JsonValue>) -> Seq<JsonData>
    decreases s,
{
    if s.len() == 0 {
        Seq::empty()
    } else {
        seq_data(s.drop_last()).push(s.last().data())
    }
}

pub open spec fn entries_data(s: Seq<(String, JsonValue)>) -> Seq<(Seq<char>, JsonData)>
    decreases s,
{
    if s.len() == 0 {
        Seq::empty()
    } else {
        entries_data(s.drop_last()).push((s.last().0@, s.last().1.data()))
    }
}

pub open spec fn keys_distinct(entries: Seq<(Seq<char>, JsonData)>) -> bool {
    forall|i: int, j: int|
        0 <= i < entries.len() && 0 <= j < entries.len() && i != j ==> #[trigger] entries[i].0
            != #[trigger] entries[j].0
}

/// The value stored under `key`: the first entry with that key.
pub open spec fn lookup(entries: Seq<(Seq<char>, JsonData)>, key: Seq<char>) -> Option<JsonData>
    decreases entries.len(),
{
    if entries.len() == 0 {
        None
    } else {
        match lookup(entries.drop_last(), key) {
            Some(v) => Some(v),
            None => if entries.last().0 == key {
                Some(entries.last().1)
            } else {
                None
            },
        }
    }
}

/// The object after `key` is bound to `value`: an existing entry is
/// replaced in place, a new key is appended.
pub open spec fn spec_insert(
    entries: Seq<(Seq<char>, JsonData)>,
    key: Seq<char>,
    value: JsonData,
) -> Seq<(Seq<char>, JsonData)> {
    if exists|i: int| 0 <= i < entries.len() && #[trigger] entries[i].0 == key {
        let i = choose|i: int| 0 <= i < entries.len() && #[trigger] entries[i].0 == key;
        entries.update(i, (key, value))
    } else {
        entries.push((key, value))
    }
}

/// `base` with each entry of `over` bound in turn.
pub open spec fn overlay(base: Seq<(Seq<char>, JsonData)>, over: Seq<(Seq<char>, JsonData)>) -> Seq<(Seq<char>, JsonData)>
    decreases over.len(),
{
    if over.len() == 0 {
        base
    } else {
        spec_insert(overlay(base, over.drop_last()), over.last().0, over.last().1)
    }
}

/// Binding the entries of an object with distinct keys in turn rebuilds
/// it.
pub proof fn lemma_overlay_distinct(v: Seq<(Seq<char>, JsonData)>)
    requires
        keys_distinct(v),
    ensures
        overlay(Seq::empty(), v) == v,
    decreases v.len(),
{
    if v.len() > 0 {
        let p = v.drop_last();
        let k = v.last().0;
        assert forall|i: int, j: int| 0 <= i < p.len() && 0 <= j < p.len() && i != j implies #[trigger] p[i].0 != #[trigger] p[j].0 by {
            assert(p[i] == v[i] && p[j] == v[j]);
        }
        lemma_overlay_distinct(p);
        assert(!(exists|i: int| 0 <= i < p.len() && #[trigger] p[i].0 == k)) by {
            if exists|i: int| 0 <= i < p.len() && #[trigger] p[i].0 == k {
                let i = choose|i: int| 0 <= i < p.len() && #[trigger] p[i].0 == k;
                assert(p[i] == v[i]);
                assert(v[i].0 == v[v.len() - 1].0);
            }
        }
        assert(p.push(v.last()) =~= v);
    }
}

/// `s` with `e` placed after every entry whose key does not come after
/// `e`'s.
pub open spec fn insert_by_key<V>(s: Seq<(Seq<char>, V)>, e: (Seq<char>, V)) -> Seq<(Seq<char>, V)>
    decreases s.len(),
{
    if s.len() == 0 {
        seq![e]
    } else if !str_lt(e.0, s.last().0) {
        s.push(e)
    } else {
        insert_by_key(s.drop_last(), e).push(s.last())
    }
}

/// The entries in key order, the order a JSON map keeps them in; entries
/// with equal keys keep their order.
pub open spec fn key_sorted<V>(es: Seq<(Seq<char>, V)>) -> Seq<(Seq<char>, V)>
    decreases es.len(),
{
    if es.len() == 0 {
        Seq::empty()
    } else {
        insert_by_key(key_sorted(es.drop_last()), es.last())
    }
}

/// Placing `e` at `j`, where every later entry's key comes after `e`'s and
/// the entry before does not, is inserting it by key.
pub proof fn lemma_insert_by_key_at<V>(s: Seq<(Seq<char>, V)>, e: (Seq<char>, V), j: int)
    requires
        0 <= j <= s.len(),
        forall|k: int| j <= k < s.len() ==> str_lt(e.0, #[trigger] s[k].0),
        j == 0 || !str_lt(e.0, s[j - 1].0),
    ensures
        insert_by_key(s, e) == s.insert(j, e),
    decreases s.len(),
{
    if s.len() == 0 {
        assert(s.insert(j, e) =~= seq![e]);
    } else if j == s.len() {
        assert(s.insert(j, e) =~= s.push(e));
    } else {
        let p = s.drop_last();
        assert(str_lt(e.0, s[s.len() - 1].0));
        assert forall|k: int| j <= k < p.len() implies str_lt(e.0, #[trigger] p[k].0) by {
            assert(p[k] == s[k]);
        }
        if j > 0 {
            assert(p[j - 1] == s[j - 1]);
        }
        lemma_insert_by_key_at(p, e, j);
        assert(p.insert(j, e).push(s.last()) =~= s.insert(j, e));
    }
}

/// The keys strictly ascend: each comes before every later one, so no key
/// occurs twice.
pub open spec fn keys_ascending<V>(s: Seq<(Seq<char>, V)>) -> bool {
    forall|i: int, j: int| 0 <= i < j < s.len() ==> str_lt(#[trigger] s[i].0, #[trigger] s[j].0)
}

/// Every key has the property `p`.
pub open spec fn all_keys<V>(s: Seq<(Seq<char>, V)>, p: spec_fn(Seq<char>) -> bool) -> bool {
    forall|k: int| 0 <= k < s.len() ==> #[trigger] p(s[k].0)
}

/// Inserting by key adds `e`'s key to the keys and keeps the others.
pub proof fn lemma_insert_by_key_keys<V>(s: Seq<(Seq<char>, V)>, e: (Seq<char>, V), p: spec_fn(Seq<char>) -> bool)
    requires
        all_keys(s, p),
        p(e.0),
    ensures
        all_keys(insert_by_key(s, e), p),
        insert_by_key(s, e).len() == s.len() + 1,
    decreases s.len(),
{
    if s.len() > 0 && str_lt(e.0, s.last().0) {
        let d = s.drop_last();
        assert(all_keys(d, p)) by {
            assert forall|k: int| 0 <= k < d.len() implies #[trigger] p(d[k].0) by {
                assert(d[k] == s[k]);
            }
        }
        lemma_insert_by_key_keys(d, e, p);
        assert(p(s[s.len() - 1].0));
    }
}

/// Sorting by key keeps every key's property.
pub proof fn lemma_key_sorted_keys<V>(es: Seq<(Seq<char>, V)>, p: spec_fn(Seq<char>) -> bool)
    requires
        all_keys(es, p),
    ensures
        all_keys(key_sorted(es), p),
        key_sorted(es).len() == es.len(),
    decreases es.len(),
{
    if es.len() > 0 {
        let d = es.drop_last();
        assert(all_keys(d, p)) by {
            assert forall|k: int| 0 <= k < d.len() implies #[trigger] p(d[k].0) by {
                assert(d[k] == es[k]);
            }
        }
        lemma_key_sorted_keys(d, p);
        assert(p(es[es.len() - 1].0));
        lemma_insert_by_key_keys(key_sorted(d), es.last(), p);
    }
}

/// Inserting a new key into ascending keys keeps them ascending.
pub proof fn lemma_insert_by_key_ascending<V>(s: Seq<(Seq<char>, V)>, e: (Seq<char>, V))
    requires
        keys_ascending(s),
        forall|k: int| 0 <= k < s.len() ==> #[trigger] s[k].0 != e.0,
    ensures
        keys_ascending(insert_by_key(s, e)),
    decreases s.len(),
{
    if s.len() == 0 {
    } else if !str_lt(e.0, s.last().0) {
        let last = s.last().0;
        assert(last != e.0);
        lemma_str_lt_total(last, e.0);
        let r = s.push(e);
        assert forall|i: int, j: int| 0 <= i < j < r.len() implies str_lt(#[trigger] r[i].0, #[trigger] r[j].0) by {
            if j == s.len() {
                if i < s.len() - 1 {
                    assert(str_lt(s[i].0, s[s.len() - 1].0));
                    lemma_str_lt_transitive(s[i].0, last, e.0);
                }
            } else {
                assert(r[i] == s[i] && r[j] == s[j]);
            }
        }
    } else {
        let d = s.drop_last();
        let last = s.last().0;
        assert(keys_ascending(d)) by {
            assert forall|i: int, j: int| 0 <= i < j < d.len() implies str_lt(#[trigger] d[i].0, #[trigger] d[j].0) by {
                assert(d[i] == s[i] && d[j] == s[j]);
            }
        }
        assert forall|k: int| 0 <= k < d.len() implies #[trigger] d[k].0 != e.0 by {
            assert(d[k] == s[k]);
        }
        lemma_insert_by_key_ascending(d, e);
        let below = |x: Seq<char>| str_lt(x, last);
        assert(all_keys(d, below)) by {
            assert forall|k: int| 0 <= k < d.len() implies #[trigger] below(d[k].0) by {
                assert(d[k] == s[k]);
                assert(str_lt(s[k].0, s[s.len() - 1].0));
            }
        }
        lemma_insert_by_key_keys(d, e, below);
        let m = insert_by_key(d, e);
        let r = m.push(s.last());
        assert forall|i: int, j: int| 0 <= i < j < r.len() implies str_lt(#[trigger] r[i].0, #[trigger] r[j].0) by {
            if j == m.len() {
                assert(below(m[i].0));
            } else {
                assert(r[i] == m[i] && r[j] == m[j]);
            }
        }
    }
}

/// Sorting entries with distinct keys by key makes the keys ascend.
pub proof fn lemma_key_sorted_ascending<V>(es: Seq<(Seq<char>, V)>)
    requires
        forall|i: int, j: int| 0 <= i < es.len() && 0 <= j < es.len() && i != j ==> #[trigger] es[i].0 != #[trigger] es[j].0,
    ensures
        keys_ascending(key_sorted(es)),
    decreases es.len(),
{
    if es.len() > 0 {
        let d = es.drop_last();
        let e = es.last();
        assert forall|i: int, j: int| 0 <= i < d.len() && 0 <= j < d.len() && i != j implies #[trigger] d[i].0 != #[trigger] d[j].0 by {
            assert(d[i] == es[i] && d[j] == es[j]);
        }
        lemma_key_sorted_ascending(d);
        let other = |x: Seq<char>| x != e.0;
        assert(all_keys(d, other)) by {
            assert forall|k: int| 0 <= k < d.len() implies #[trigger] other(d[k].0) by {
                assert(d[k] == es[k]);
                assert(es[k].0 != es[es.len() - 1].0);
            }
        }
        lemma_key_sorted_keys(d, other);
        let sd = key_sorted(d);
        assert forall|k: int| 0 <= k < sd.len() implies #[trigger] sd[k].0 != e.0 by {
            assert(other(sd[k].0));
        }
        lemma_insert_by_key_ascending(sd, e);
    }
}

/// `Some(v)` read as a JSON value, `None` as absence.
pub open spec fn opt_data(v: Option<&JsonValue>) -> Option<JsonData> {
    match v {
        Some(x) => Some(x.data()),
        None => None,
    }
}

/// An optional owned value read as a JSON value.
pub open spec fn owned_data(v: Option<JsonValue>) -> Option<JsonData> {
    match v {
        Some(x) => Some(x.data()),
        None => None,
    }
}

pub proof fn lemma_seq_data(s: Seq<JsonValue>)
    ensures
        seq_data(s).len() == s.len(),
        forall|i: int| 0 <= i < s.len() ==> #[trigger] seq_data(s)[i] == s[i].data(),
    decreases s.len(),
{
    if s.len() > 0 {
        lemma_seq_data(s.drop_last());
    }
}

pub proof fn lemma_entries_data(s: Seq<(String, JsonValue)>)
    ensures
        entries_data(s).len() == s.len(),
        forall|i: int|
            0 <= i < s.len() ==> #[trigger] entries_data(s)[i] == (s[i].0@, s[i].1.data()),
    decreases s.len(),
{
    if s.len() > 0 {
        lemma_entries_data(s.drop_last());
    }
}

pub proof fn lemma_lookup_found(entries: Seq<(Seq<char>, JsonData)>, key: Seq<char>, i: int)
    requires
        0 <= i < entries.len(),
        entries[i].0 == key,
        forall|j: int| 0 <= j < i ==> #[trigger] entries[j].0 != key,
    ensures
        lookup(entries, key) == Some(entries[i].1),
    decreases entries.len(),
{
    if i < entries.len() - 1 {
        lemma_lookup_found(entries.drop_last(), key, i);
    } else {
        lemma_lookup_absent(entries.drop_last(), key);
    }
}

pub proof fn lemma_lookup_absent(entries: Seq<(Seq<char>, JsonData)>, key: Seq<char>)
    requires
        forall|j: int| 0 <= j < entries.len() ==> #[trigger] entries[j].0 != key,
    ensures
        lookup(entries, key) == None::<JsonData>,
    decreases entries.len(),
{
    if entries.len() > 0 {
        lemma_lookup_absent(entries.drop_last(), key);
    }
}

pub proof fn lemma_lookup_some_has_key(entries: Seq<(Seq<char>, JsonData)>, key: Seq<char>)
    requires
        lookup(entries, key) is Some,
    ensures
        exists|i: int| 0 <= i < entries.len() && #[trigger] entries[i].0 == key,
    decreases entries.len(),
{
    if entries.len() > 0 {
        if lookup(entries.drop_last(), key) is Some {
            lemma_lookup_some_has_key(entries.drop_last(), key);
            let i = choose|i: int| 0 <= i < entries.len() - 1 && #[trigger] entries.drop_last()[i].0 == key;
            assert(entries[i].0 == key);
        } else {
            assert(entries[entries.len() - 1].0 == key);
        }
    }
}

/// A copy of a JSON value with the same view.
#[verifier::loop_isolation(false)]
pub fn copy_json(v: &JsonValue) -> (r: JsonValue)
    ensures
        r.data() == v.data(),
    decreases v,
{
    match v {
        JsonValue::Null => JsonValue::Null,
        JsonValue::Bool(b) => JsonValue::Bool(*b),
        JsonValue::Number(n) => JsonValue::Number(copy_number(n)),
        JsonValue::String(s) => JsonValue::String(s.clone()),
        JsonValue::Array(items) => {
            let mut out: Vec<JsonValue> = Vec::new();
            let mut i: usize = 0;
            while i < items.len()
                invariant
                    i <= items.len(),
                    out@.len() == i,
                    forall|j: int| 0 <= j < i ==> #[trigger] out@[j].data() == items@[j].data(),
                decreases items.len() - i,
            {
                proof {
                    assert(*items == (*v)->Array_0);
                    assert(decreases_to!(*v => (*v)->Array_0));
                    assert(decreases_to!(*items => items@));
                    assert(decreases_to!(items@ => items@[i as int]));
                }
                let c = copy_json(&items[i]);
                out.push(c);
                i += 1;
            }
            proof {
                lemma_seq_data(out@);
                lemma_seq_data(items@);
                assert(seq_data(out@) =~= seq_data(items@));
            }
            JsonValue::Array(out)
        },
        JsonValue::Object(o) => {
            proof {
                assert(*o == (*v)->Object_0);
                assert(decreases_to!(*v => (*v)->Object_0));
                assert(decreases_to!(*o => o.entries));
            }
            JsonValue::Object(copy_object_entries(o, Ghost(*v)))
        },
    }
}

#[verifier::loop_isolation(false)]
fn copy_object_entries(o: &JsonObject, Ghost(parent): Ghost<JsonValue>) -> (r: JsonObject)
    requires
        decreases_to!(parent => o.entries),
    ensures
        r.view() == o.view(),
        r.entries@.len() == o.entries@.len(),
    decreases parent, 1nat,
{
    let mut out: Vec<(String, JsonValue)> = Vec::new();
    let mut i: usize = 0;
    while i < o.entries.len()
        invariant
            i <= o.entries.len(),
            out@.len() == i,
            forall|j: int|
                0 <= j < i ==> #[trigger] out@[j].0@ == o.entries@[j].0@ && out@[j].1.data()
                    == o.entries@[j].1.data(),
        decreases o.entries.len() - i,
    {
        proof {
            assert(decreases_to!(o.entries => o.entries@));
            assert(decreases_to!(o.entries@ => o.entries@[i as int]));
            assert(decreases_to!(o.entries@[i as int] => o.entries@[i as int].1));
        }
        let k = o.entries[i].0.clone();
        let c = copy_json(&o.entries[i].1);
        out.push((k, c));
        i += 1;
    }
    let r = JsonObject { entries: out };
    proof {
        lemma_entries_data(r.entries@);
        lemma_entries_data(o.entries@);
        assert(entries_data(r.entries@) =~= entries_data(o.entries@));
    }
    r
}

/// A copy of an optional borrowed value.
pub fn copy_opt_json(v: Option<&JsonValue>) -> (r: Option<JsonValue>)
    ensures
        owned_data(r) == opt_data(v),
{
    match v {
        Some(x) => Some(copy_json(x)),
        None => None,
    }
}

pub fn copy_number(n: &JsonNumber) -> (r: JsonNumber)
    ensures
        r.data() == n.data(),
{
    match n {
        JsonNumber::I64(x) => JsonNumber::I64(*x),
        JsonNumber::U64(x) => JsonNumber::U64(*x),
        JsonNumber::F64(f) => JsonNumber::F64(
            FloatNumber { rendered: f.rendered.clone(), display: f.display.clone(), nonnegative_whole: f.nonnegative_whole },
        ),
    }
}

impl JsonObject {
    pub fn new() -> (r: JsonObject)
        ensures
            r.view() == Seq::<(Seq<char>, JsonData)>::empty(),
            r.wf(),
    {
        JsonObject { entries: Vec::new() }
    }

    pub fn len(&self) -> (n: usize)
        ensures
            n == self.view().len(),
    {
        proof {
            lemma_entries_data(self.entries@);
        }
        self.entries.len()
    }

    pub fn is_empty(&self) -> (b: bool)
        ensures
            b == (self.view().len() == 0),
    {
        proof {
            lemma_entries_data(self.entries@);
        }
        self.entries.len() == 0
    }

    /// The position of `key`, if present.
    pub fn position(&self, key: &str) -> (r: Option<usize>)
        ensures
            r matches Some(i) ==> i < self.view().len() && self.view()[i as int].0 == key@
                && forall|j: int| 0 <= j < i ==> #[trigger] self.view()[j].0 != key@,
            r is None ==> forall|j: int|
                0 <= j < self.view().len() ==> #[trigger] self.view()[j].0 != key@,
    {
        proof {
            lemma_entries_data(self.entries@);
        }
        let target = key.to_owned();
        let mut i: usize = 0;
        while i < self.entries.len()
            invariant
                i <= self.entries@.len(),
                target@ == key@,
                self.view().len() == self.entries@.len(),
                forall|j: int|
                    0 <= j < self.entries@.len() ==> #[trigger] self.view()[j] == (
                        self.entries@[j].0@,
                        self.entries@[j].1.data(),
                    ),
                forall|j: int| 0 <= j < i ==> #[trigger] self.view()[j].0 != key@,
            decreases self.entries@.len() - i,
        {
            if self.entries[i].0 == target {
                return Some(i);
            }
            i += 1;
        }
        None
    }

    /// The value stored under `key`.
    pub fn get(&self, key: &str) -> (r: Option<&JsonValue>)
        ensures
            opt_data(r) == lookup(self.view(), key@),
    {
        proof {
            lemma_entries_data(self.entries@);
        }
        match self.position(key) {
            Some(i) => {
                proof {
                    lemma_lookup_found(self.view(), key@, i as int);
                }
                Some(&self.entries[i].1)
            },
            None => {
                proof {
                    lemma_lookup_absent(self.view(), key@);
                }
                None
            },
        }
    }

    pub fn contains_key(&self, key: &str) -> (b: bool)
        ensures
            b == lookup(self.view(), key@) is Some,
    {
        self.get(key).is_some()
    }

    /// Binds `key` to `value`.
    pub fn insert(&mut self, key: String, value: JsonValue)
        requires
            old(self).wf(),
        ensures
            final(self).view() == spec_insert(old(self).view(), key@, value.data()),
            final(self).wf(),
    {
        proof {
            lemma_entries_data(self.entries@);
        }
        let ghost key_data = key@;
        let ghost value_data = value.data();
        match self.position(key.as_str()) {
            Some(i) => {
                self.entries.set(i, (key, value));
                proof {
                    lemma_entries_data(self.entries@);
                    let old_view = old(self).view();
                    assert(exists|k: int| 0 <= k < old_view.len() && #[trigger] old_view[k].0 == key_data);
                    let c = choose|k: int| 0 <= k < old_view.len() && #[trigger] old_view[k].0 == key_data;
                    assert(c == i);
                    assert(self.view() =~= old_view.update(i as int, (key_data, value_data)));
                }
            },
            None => {
                self.entries.push((key, value));
                proof {
                    lemma_entries_data(self.entries@);
                    assert(self.view() =~= old(self).view().push((key_data, value_data)));
                }
            },
        }
    }

    /// The object with each key bound once: an entry under a key bound
    /// before replaces that binding (as a JSON map reads repeated keys).
    pub fn normalized(&self) -> (r: JsonObject)
        ensures
            r.wf(),
            r.view() == overlay(Seq::empty(), self.view()),
            self.wf() ==> r.view() == self.view(),
    {
        proof {
            lemma_entries_data(self.entries@);
        }
        let ghost v = self.view();
        let mut out = JsonObject::new();
        let mut i: usize = 0;
        proof {
            assert(v.take(0) =~= Seq::<(Seq<char>, JsonData)>::empty());
        }
        while i < self.entries.len()
            invariant
                i <= self.entries@.len(),
                v == self.view(),
                v.len() == self.entries@.len(),
                forall|j: int| 0 <= j < v.len() ==> #[trigger] v[j] == (self.entries@[j].0@, self.entries@[j].1.data()),
                out.wf(),
                out.view() == overlay(Seq::empty(), v.take(i as int)),
            decreases self.entries@.len() - i,
        {
            proof {
                assert(v.take(i + 1).drop_last() =~= v.take(i as int));
                assert(v.take(i + 1).last() == v[i as int]);
            }
            out.insert(self.entries[i].0.clone(), copy_json(&self.entries[i].1));
            i += 1;
        }
        proof {
            assert(v.take(v.len() as int) =~= v);
            if self.wf() {
                lemma_overlay_distinct(v);
            }
        }
        out
    }

    /// A copy with the entries in key order.
    pub fn key_sorted_copy(&self) -> (r: JsonObject)
        ensures
            r.view() == key_sorted(self.view()),
    {
        proof {
            lemma_entries_data(self.entries@);
        }
        let ghost v = self.view();
        let mut out: Vec<(String, JsonValue)> = Vec::new();
        let mut i: usize = 0;
        proof {
            assert(v.take(0) =~= Seq::<(Seq<char>, JsonData)>::empty());
            assert(entries_data(out@) =~= Seq::<(Seq<char>, JsonData)>::empty());
        }
        while i < self.entries.len()
            invariant
                i <= self.entries@.len(),
                v == self.view(),
                v.len() == self.entries@.len(),
                forall|k: int| 0 <= k < v.len() ==> #[trigger] v[k] == (self.entries@[k].0@, self.entries@[k].1.data()),
                entries_data(out@) == key_sorted(v.take(i as int)),
            decreases self.entries@.len() - i,
        {
            let key = self.entries[i].0.clone();
            let value = copy_json(&self.entries[i].1);
            let ghost e = (key@, value.data());
            let ghost before = entries_data(out@);
            proof {
                lemma_entries_data(out@);
            }
            let mut j: usize = out.len();
            loop
                invariant
                    j <= out@.len(),
                    before == entries_data(out@),
                    before.len() == out@.len(),
                    forall|k: int| 0 <= k < out@.len() ==> #[trigger] before[k] == (out@[k].0@, out@[k].1.data()),
                    e == (key@, value.data()),
                    forall|k: int| j <= k < before.len() ==> str_lt(e.0, #[trigger] before[k].0),
                ensures
                    j <= out@.len(),
                    forall|k: int| j <= k < before.len() ==> str_lt(e.0, #[trigger] before[k].0),
                    j == 0 || !str_lt(e.0, before[j - 1].0),
                decreases j,
            {
                if j == 0 {
                    break;
                }
                let later = str_lt_exec(key.as_str(), out[j - 1].0.as_str());
                if !later {
                    break;
                }
                j -= 1;
            }
            proof {
                lemma_insert_by_key_at(before, e, j as int);
                assert(v.take(i + 1).drop_last() =~= v.take(i as int));
                assert(v.take(i + 1).last() == e);
            }
            out.insert(j, (key, value));
            proof {
                lemma_entries_data(out@);
                assert(entries_data(out@) =~= before.insert(j as int, e));
            }
            i += 1;
        }
        proof {
            assert(v.take(v.len() as int) =~= v);
        }
        JsonObject { entries: out }
    }

    /// A copy with the same view.
    pub fn copy(&self) -> (r: JsonObject)
        ensures
            r.view() == self.view(),
    {
        proof {
            lemma_entries_data(self.entries@);
        }
        let mut out = JsonObject { entries: Vec::new() };
        let mut i: usize = 0;
        while i < self.entries.len()
            invariant
                i <= self.entries@.len(),
                out.entries@.len() == i,
                forall|j: int|
                    0 <= j < i ==> #[trigger] out.entries@[j].0@ == self.entries@[j].0@
                        && out.entries@[j].1.data() == self.entries@[j].1.data(),
            decreases self.entries@.len() - i,
        {
            let k = self.entries[i].0.clone();
            let c = copy_json(&self.entries[i].1);
            out.entries.push((k, c));
            i += 1;
        }
        proof {
            lemma_entries_data(out.entries@);
            lemma_entries_data(self.entries@);
            assert(out.view() =~= self.view());
        }
        out
    }
}

impl Clone for JsonValue {
    fn clone(&self) -> (r: Self)
        ensures
            r.data() == self.data(),
    {
        copy_json(self)
    }
}

impl Clone for JsonObject {
    fn clone(&self) -> (r: Self)
        ensures
            r.view() == self.view(),
    {
        self.copy()
    }
}

} // verus!
