//! Text primitives over character sequences: trimming, case folding,
//! prefix and substring tests, and decimal rendering.
use vstd::prelude::*;

verus! {

/// Unicode `White_Space`, the set that `char::is_whitespace` tests.
pub open spec fn is_ws(c: char) -> bool {
    ||| ('\u{9}' <= c && c <= '\u{d}')
    ||| c == ' '
    ||| c == '\u{85}'
    ||| c == '\u{a0}'
    ||| c == '\u{1680}'
    ||| ('\u{2000}' <= c && c <= '\u{200a}')
    ||| c == '\u{2028}'
    ||| c == '\u{2029}'
    ||| c == '\u{202f}'
    ||| c == '\u{205f}'
    ||| c == '\u{3000}'
}

pub open spec fn is_ascii_alnum(c: char) -> bool {
    ('a' <= c && c <= 'z') || ('A' <= c && c <= 'Z') || ('0' <= c && c <= '9')
}

pub open spec fn lower_char(c: char) -> char {
    if 'A' <= c && c <= 'Z' {
        ((c as u8) + 32) as char
    } else {
        c
    }
}

pub open spec fn upper_char(c: char) -> char {
    if 'a' <= c && c <= 'z' {
        ((c as u8) - 32) as char
    } else {
        c
    }
}

pub open spec fn lower(s: Seq<char>) -> Seq<char> {
    s.map_values(|c: char| lower_char(c))
}

pub open spec fn upper(s: Seq<char>) -> Seq<char> {
    s.map_values(|c: char| upper_char(c))
}

/// Number of leading characters that satisfy `p`.
pub open spec fn lead_count(s: Seq<char>, p: spec_fn(char) -> bool) -> nat
    decreases s.len(),
{
    if s.len() == 0 {
        0
    } else if p(s[0]) {
        1 + lead_count(s.drop_first(), p)
    } else {
        0
    }
}

/// Number of trailing characters that satisfy `p`.
pub open spec fn tail_count(s: Seq<char>, p: spec_fn(char) -> bool) -> nat
    decreases s.len(),
{
    if s.len() == 0 {
        0
    } else if p(s.last()) {
        1 + tail_count(s.drop_last(), p)
    } else {
        0
    }
}

/// `s` with leading and trailing characters in `p` removed.
pub open spec fn trim_by(s: Seq<char>, p: spec_fn(char) -> bool) -> Seq<char> {
    let front = s.skip(lead_count(s, p) as int);
    front.take(front.len() - tail_count(front, p))
}

pub open spec fn ws() -> spec_fn(char) -> bool {
    |c: char| is_ws(c)
}

/// The text without leading and trailing whitespace, as `str::trim`
/// trims it.
pub open spec fn trim(s: Seq<char>) -> Seq<char> {
    trim_by(s, ws())
}

/// The text without leading whitespace, as `str::trim_start` trims it.
pub open spec fn trim_start(s: Seq<char>) -> Seq<char> {
    s.skip(lead_count(s, ws()) as int)
}

/// The text without trailing whitespace, as `str::trim_end` trims it.
pub open spec fn trim_end(s: Seq<char>) -> Seq<char> {
    s.take(s.len() - tail_count(s, ws()))
}

pub open spec fn starts_with(s: Seq<char>, prefix: Seq<char>) -> bool {
    prefix.len() <= s.len() && s.take(prefix.len() as int) == prefix
}

pub open spec fn ends_with(s: Seq<char>, suffix: Seq<char>) -> bool {
    suffix.len() <= s.len() && s.skip(s.len() - suffix.len()) == suffix
}

/// `needle` occurs in `s` starting at `i`.
pub open spec fn occurs_at(s: Seq<char>, needle: Seq<char>, i: int) -> bool {
    0 <= i && i + needle.len() <= s.len() && s.subrange(i, i + needle.len()) == needle
}

pub open spec fn contains(s: Seq<char>, needle: Seq<char>) -> bool {
    exists|i: int| occurs_at(s, needle, i)
}

/// Decimal digits of `n`, most significant first.
pub open spec fn decimal(n: nat) -> Seq<char>
    decreases n,
{
    if n < 10 {
        seq![digit_char(n)]
    } else {
        decimal(n / 10).push(digit_char(n % 10))
    }
}

pub open spec fn digit_char(d: nat) -> char {
    ((d + 48) as u8) as char
}

/// A number below ten has one digit; any other has at least two.
pub proof fn lemma_decimal_len(n: nat)
    ensures
        n < 10 ==> decimal(n).len() == 1,
        n >= 10 ==> decimal(n).len() >= 2,
    decreases n,
{
    if n >= 10 {
        lemma_decimal_len(n / 10);
    }
}

proof fn lemma_digit_char_injective(d: nat, e: nat)
    requires
        d < 10,
        e < 10,
        digit_char(d) == digit_char(e),
    ensures
        d == e,
{
    let x = (d + 48) as u8;
    let y = (e + 48) as u8;
    assert(x == d + 48);
    assert(y == e + 48);
    assert((x as char) == (y as char));
    assert(x as u32 == (x as char) as u32);
    assert(y as u32 == (y as char) as u32);
}

/// Different numbers have different decimal renderings.
pub proof fn lemma_decimal_injective(a: nat, b: nat)
    requires
        decimal(a) == decimal(b),
    ensures
        a == b,
    decreases a,
{
    lemma_decimal_len(a);
    lemma_decimal_len(b);
    if a < 10 && b < 10 {
        assert(decimal(a) =~= seq![digit_char(a)]);
        assert(decimal(b) =~= seq![digit_char(b)]);
        assert(decimal(a)[0] == digit_char(a));
        assert(decimal(b)[0] == digit_char(b));
        lemma_digit_char_injective(a, b);
    } else if a >= 10 && b >= 10 {
        assert(decimal(a).last() == digit_char(a % 10));
        assert(decimal(b).last() == digit_char(b % 10));
        lemma_digit_char_injective(a % 10, b % 10);
        assert(decimal(a).drop_last() =~= decimal(a / 10));
        assert(decimal(b).drop_last() =~= decimal(b / 10));
        lemma_decimal_injective(a / 10, b / 10);
    }
}

/// Decimal rendering of a signed integer, as `i64::to_string` gives it.
pub open spec fn signed_decimal(v: int) -> Seq<char> {
    if v < 0 {
        seq!['-'] + decimal((-v) as nat)
    } else {
        decimal(v as nat)
    }
}

pub fn is_ws_exec(c: char) -> (b: bool)
    ensures
        b == is_ws(c),
{
    ('\u{9}' <= c && c <= '\u{d}') || c == ' ' || c == '\u{85}' || c == '\u{a0}' || c
        == '\u{1680}' || ('\u{2000}' <= c && c <= '\u{200a}') || c == '\u{2028}' || c
        == '\u{2029}' || c == '\u{202f}' || c == '\u{205f}' || c == '\u{3000}'
}

pub fn is_ascii_alnum_exec(c: char) -> (b: bool)
    ensures
        b == is_ascii_alnum(c),
{
    ('a' <= c && c <= 'z') || ('A' <= c && c <= 'Z') || ('0' <= c && c <= '9')
}

/// The characters of `s`.
pub fn chars_of(s: &str) -> (out: Vec<char>)
    ensures
        out@ == s@,
{
    let mut out: Vec<char> = Vec::new();
    for c in it: s.chars()
        invariant
            out@ == it.seq().take(it.index() as int),
            it.seq() == s@,
    {
        out.push(c);
    }
    out
}

/// The string whose characters are `chars`.
///
/// Calls `FromIterator<&char> for String` on the characters; the contract
/// claims only that the string holds those characters in that order.
#[verifier::external_body]
pub fn string_from_chars(chars: &[char]) -> (s: String)
    ensures
        s@ == chars@,
{
    chars.iter().collect::<String>()
}

/// `a` and `b` hold the same characters.
pub fn str_eq(a: &str, b: &str) -> (r: bool)
    ensures
        r == (a@ == b@),
{
    a.to_owned() == b.to_owned()
}

/// `a` followed by `b`.
pub fn concat(a: &str, b: &str) -> (s: String)
    ensures
        s@ == a@ + b@,
{
    let mut s = a.to_owned();
    s.append(b);
    s
}

/// `a`, `b` and `c` joined.
pub fn concat3(a: &str, b: &str, c: &str) -> (s: String)
    ensures
        s@ == a@ + b@ + c@,
{
    let mut s = a.to_owned();
    s.append(b);
    s.append(c);
    s
}

pub proof fn lemma_lead_count_bound(s: Seq<char>, p: spec_fn(char) -> bool)
    ensures
        lead_count(s, p) <= s.len(),
        forall|i: int| 0 <= i < lead_count(s, p) ==> #[trigger] p(s[i]),
        lead_count(s, p) < s.len() ==> !p(s[lead_count(s, p) as int]),
    decreases s.len(),
{
    if s.len() > 0 && p(s[0]) {
        lemma_lead_count_bound(s.drop_first(), p);
        assert forall|i: int| 0 <= i < lead_count(s, p) implies #[trigger] p(s[i]) by {
            if i > 0 {
                assert(s[i] == s.drop_first()[i - 1]);
            }
        }
    }
}

pub proof fn lemma_tail_count_bound(s: Seq<char>, p: spec_fn(char) -> bool)
    ensures
        tail_count(s, p) <= s.len(),
        forall|i: int| s.len() - tail_count(s, p) <= i < s.len() ==> #[trigger] p(s[i]),
        tail_count(s, p) < s.len() ==> !p(s[s.len() - tail_count(s, p) - 1]),
    decreases s.len(),
{
    if s.len() > 0 && p(s.last()) {
        lemma_tail_count_bound(s.drop_last(), p);
        assert forall|i: int| s.len() - tail_count(s, p) <= i < s.len() implies #[trigger] p(
            s[i],
        ) by {
            if i < s.len() - 1 {
                assert(s[i] == s.drop_last()[i]);
            }
        }
    }
}

/// A leading run of `p` characters up to a non-`p` character is exactly
/// `lead_count`.
pub proof fn lemma_lead_count_exact(s: Seq<char>, p: spec_fn(char) -> bool, k: int)
    requires
        0 <= k <= s.len(),
        forall|i: int| 0 <= i < k ==> #[trigger] p(s[i]),
        k < s.len() ==> !p(s[k]),
    ensures
        lead_count(s, p) == k,
    decreases s.len(),
{
    if s.len() > 0 && k > 0 {
        assert forall|i: int| 0 <= i < k - 1 implies #[trigger] p(s.drop_first()[i]) by {
            assert(s.drop_first()[i] == s[i + 1]);
        }
        if k - 1 < s.len() - 1 {
            assert(s.drop_first()[k - 1] == s[k]);
        }
        lemma_lead_count_exact(s.drop_first(), p, k - 1);
    }
}

pub proof fn lemma_tail_count_exact(s: Seq<char>, p: spec_fn(char) -> bool, k: int)
    requires
        0 <= k <= s.len(),
        forall|i: int| s.len() - k <= i < s.len() ==> #[trigger] p(s[i]),
        k < s.len() ==> !p(s[s.len() - k - 1]),
    ensures
        tail_count(s, p) == k,
    decreases s.len(),
{
    if s.len() > 0 && k > 0 {
        let t = s.drop_last();
        assert forall|i: int| t.len() - (k - 1) <= i < t.len() implies #[trigger] p(t[i]) by {
            assert(t[i] == s[i]);
        }
        if k - 1 < t.len() {
            assert(t[t.len() - (k - 1) - 1] == s[s.len() - k - 1]);
        }
        lemma_tail_count_exact(t, p, k - 1);
    }
}

/// The text without leading and trailing whitespace.
pub fn trim_str(s: &str) -> (r: String)
    ensures
        r@ == trim(s@),
{
    let cs = chars_of(s);
    let n = cs.len();
    let mut start: usize = 0;
    while start < n && is_ws_exec(cs[start])
        invariant
            start <= n,
            n == cs@.len(),
            forall|i: int| 0 <= i < start ==> #[trigger] is_ws(cs@[i]),
        decreases n - start,
    {
        start += 1;
    }
    let mut end: usize = n;
    while end > start && is_ws_exec(cs[end - 1])
        invariant
            start <= end <= n,
            n == cs@.len(),
            forall|i: int| end <= i < n ==> #[trigger] is_ws(cs@[i]),
        decreases end - start,
    {
        end -= 1;
    }
    let mut out: Vec<char> = Vec::new();
    let mut i: usize = start;
    while i < end
        invariant
            start <= i <= end <= n,
            n == cs@.len(),
            out@ == cs@.subrange(start as int, i as int),
        decreases end - i,
    {
        out.push(cs[i]);
        i += 1;
    }
    proof {
        let sv = s@;
        lemma_lead_count_exact(sv, ws(), start as int);
        let front = sv.skip(start as int);
        if end > start {
            assert(front[front.len() - (n - end) - 1] == sv[end - 1]);
        } else {
            if start < n {
                assert(!is_ws(sv[start as int]));
            }
        }
        assert forall|i: int| front.len() - (n - end) <= i < front.len() implies #[trigger] ws()(
            front[i],
        ) by {
            assert(front[i] == sv[i + start]);
        }
        if (n - end) < front.len() {
            assert(front[front.len() - (n - end) - 1] == sv[end - 1]);
        }
        lemma_tail_count_exact(front, ws(), (n - end) as int);
        assert(out@ =~= trim(sv));
    }
    string_from_chars(out.as_slice())
}


pub open spec fn in_set(set: Seq<char>) -> spec_fn(char) -> bool {
    |c: char| set.contains(c)
}

fn char_in(set: &[char], c: char) -> (r: bool)
    ensures
        r == set@.contains(c),
{
    let mut i: usize = 0;
    while i < set.len()
        invariant
            i <= set@.len(),
            forall|j: int| 0 <= j < i ==> set@[j] != c,
        decreases set@.len() - i,
    {
        if set[i] == c {
            return true;
        }
        i += 1;
    }
    false
}

/// `s` with every leading and trailing character of `set` removed
/// (`str::trim_matches` with a character set).
pub fn trim_chars(s: &str, set: &[char]) -> (r: String)
    ensures
        r@ == trim_by(s@, in_set(set@)),
{
    let cs = chars_of(s);
    let n = cs.len();
    let mut start: usize = 0;
    while start < n && char_in(set, cs[start])
        invariant
            start <= n,
            n == cs@.len(),
            forall|i: int| 0 <= i < start ==> #[trigger] set@.contains(cs@[i]),
        decreases n - start,
    {
        start += 1;
    }
    let mut end: usize = n;
    while end > start && char_in(set, cs[end - 1])
        invariant
            start <= end <= n,
            n == cs@.len(),
            forall|i: int| end <= i < n ==> #[trigger] set@.contains(cs@[i]),
        decreases end - start,
    {
        end -= 1;
    }
    let mut out: Vec<char> = Vec::new();
    let mut i: usize = start;
    while i < end
        invariant
            start <= i <= end <= n,
            n == cs@.len(),
            out@ == cs@.subrange(start as int, i as int),
        decreases end - i,
    {
        out.push(cs[i]);
        i += 1;
    }
    proof {
        let sv = s@;
        let p = in_set(set@);
        assert forall|i: int| 0 <= i < start implies #[trigger] p(sv[i]) by {}
        lemma_lead_count_exact(sv, p, start as int);
        let front = sv.skip(start as int);
        assert forall|i: int| front.len() - (n - end) <= i < front.len() implies #[trigger] p(
            front[i],
        ) by {
            assert(front[i] == sv[i + start]);
        }
        if (n - end) < front.len() {
            assert(front[front.len() - (n - end) - 1] == sv[end - 1]);
        }
        lemma_tail_count_exact(front, p, (n - end) as int);
        assert(out@ =~= trim_by(sv, p));
    }
    string_from_chars(out.as_slice())
}

pub open spec fn not_ws() -> spec_fn(char) -> bool {
    |c: char| !is_ws(c)
}

/// The whitespace-separated words of `s` (`str::split_whitespace`).
pub open spec fn words(s: Seq<char>) -> Seq<Seq<char>>
    decreases s.len(),
{
    let t = trim_start(s);
    if t.len() == 0 {
        Seq::empty()
    } else {
        let k = lead_count(t, not_ws());
        if k == 0 {
            Seq::empty()
        } else {
            proof {
                lemma_lead_count_bound(t, not_ws());
                lemma_lead_count_bound(s, ws());
            }
            seq![t.take(k as int)] + words(t.skip(k as int))
        }
    }
}

/// The items of `parts` separated by `sep` (`[String]::join`).
pub open spec fn join(parts: Seq<Seq<char>>, sep: Seq<char>) -> Seq<char>
    decreases parts.len(),
{
    if parts.len() == 0 {
        Seq::empty()
    } else if parts.len() == 1 {
        parts[0]
    } else {
        join(parts.drop_last(), sep) + sep + parts.last()
    }
}

/// Splits `s` into its whitespace-separated words.
pub fn split_whitespace(s: &str) -> (r: Vec<String>)
    ensures
        r@.len() == words(s@).len(),
        forall|i: int| 0 <= i < r@.len() ==> #[trigger] r@[i]@ == words(s@)[i],
{
    let cs = chars_of(s);
    let n = cs.len();
    let mut out: Vec<String> = Vec::new();
    let mut pos: usize = 0;
    let ghost mut done: Seq<Seq<char>> = Seq::empty();
    proof {
        assert(cs@.skip(0) =~= cs@);
        assert(done + words(cs@.skip(0)) =~= words(cs@));
    }
    loop
        invariant
            pos <= n,
            n == cs@.len(),
            cs@ == s@,
            out@.len() == done.len(),
            forall|i: int| 0 <= i < out@.len() ==> #[trigger] out@[i]@ == done[i],
            words(s@) == done + words(cs@.skip(pos as int)),
        decreases n - pos,
    {
        let ghost rest = cs@.skip(pos as int);
        let mut start: usize = pos;
        while start < n && is_ws_exec(cs[start])
            invariant
                pos <= start <= n,
                n == cs@.len(),
                forall|i: int| pos <= i < start ==> #[trigger] is_ws(cs@[i]),
            decreases n - start,
        {
            start += 1;
        }
        proof {
            assert forall|i: int| 0 <= i < start - pos implies #[trigger] ws()(rest[i]) by {
                assert(rest[i] == cs@[i + pos]);
            }
            if start < n {
                assert(rest[start - pos] == cs@[start as int]);
            }
            lemma_lead_count_exact(rest, ws(), (start - pos) as int);
            assert(trim_start(rest) =~= cs@.skip(start as int));
        }
        if start == n {
            proof {
                assert(words(rest) =~= Seq::<Seq<char>>::empty());
                assert(done + words(rest) =~= done);
            }
            return out;
        }
        let mut end: usize = start;
        while end < n && !is_ws_exec(cs[end])
            invariant
                start <= end <= n,
                n == cs@.len(),
                forall|i: int| start <= i < end ==> !#[trigger] is_ws(cs@[i]),
            decreases n - end,
        {
            end += 1;
        }
        let mut w: Vec<char> = Vec::new();
        let mut k: usize = start;
        while k < end
            invariant
                start <= k <= end <= n,
                n == cs@.len(),
                w@ == cs@.subrange(start as int, k as int),
            decreases end - k,
        {
            w.push(cs[k]);
            k += 1;
        }
        proof {
            let t = cs@.skip(start as int);
            assert forall|i: int| 0 <= i < end - start implies #[trigger] not_ws()(t[i]) by {
                assert(t[i] == cs@[i + start]);
            }
            if end < n {
                assert(t[end - start] == cs@[end as int]);
            }
            assert(!is_ws(cs@[start as int]));
            lemma_lead_count_exact(t, not_ws(), (end - start) as int);
            assert(t.take((end - start) as int) =~= w@);
            assert(t.skip((end - start) as int) =~= cs@.skip(end as int));
            assert(words(rest) == seq![w@] + words(cs@.skip(end as int)));
            done = done.push(w@);
            assert(done.drop_last() + (seq![w@] + words(cs@.skip(end as int))) =~= done + words(cs@.skip(end as int)));
        }
        out.push(string_from_chars(w.as_slice()));
        pos = end;
    }
}

/// Joins `parts` with `sep` between consecutive items.
pub fn join_strings(parts: &Vec<String>, sep: &str) -> (r: String)
    ensures
        r@ == join(parts@.map_values(|p: String| p@), sep@),
{
    let ghost views = parts@.map_values(|p: String| p@);
    let mut out = String::new();
    let mut i: usize = 0;
    while i < parts.len()
        invariant
            i <= parts@.len(),
            views == parts@.map_values(|p: String| p@),
            out@ == join(views.take(i as int), sep@),
        decreases parts@.len() - i,
    {
        proof {
            assert(views.take(i + 1).drop_last() =~= views.take(i as int));
        }
        if i > 0 {
            out.append(sep);
        } else {
            proof {
                assert(out@ =~= Seq::<char>::empty());
            }
        }
        out.append(parts[i].as_str());
        i += 1;
    }
    proof {
        assert(views.take(parts@.len() as int) =~= views);
    }
    out
}

/// The text is empty once surrounding whitespace is removed.
pub fn is_blank(s: &str) -> (b: bool)
    ensures
        b == (trim(s@).len() == 0),
{
    let t = trim_str(s);
    t.as_str().is_empty()
}

/// `str::starts_with` for a string prefix.
pub fn starts_with_str(s: &str, prefix: &str) -> (b: bool)
    ensures
        b == starts_with(s@, prefix@),
{
    let a = chars_of(s);
    let p = chars_of(prefix);
    if p.len() > a.len() {
        return false;
    }
    let mut i: usize = 0;
    while i < p.len()
        invariant
            i <= p@.len() <= a@.len(),
            forall|j: int| 0 <= j < i ==> a@[j] == p@[j],
            a@ == s@,
            p@ == prefix@,
        decreases p@.len() - i,
    {
        if a[i] != p[i] {
            proof {
                assert(s@.take(prefix@.len() as int)[i as int] != prefix@[i as int]);
            }
            return false;
        }
        i += 1;
    }
    proof {
        assert(s@.take(prefix@.len() as int) =~= prefix@);
    }
    true
}

/// `str::ends_with` for a string suffix.
pub fn ends_with_str(s: &str, suffix: &str) -> (b: bool)
    ensures
        b == ends_with(s@, suffix@),
{
    let a = chars_of(s);
    let p = chars_of(suffix);
    if p.len() > a.len() {
        return false;
    }
    let off = a.len() - p.len();
    let mut i: usize = 0;
    while i < p.len()
        invariant
            i <= p@.len() <= a@.len(),
            off == a@.len() - p@.len(),
            a@.len() == a.len(),
            a@ == s@,
            p@ == suffix@,
            forall|j: int| 0 <= j < i ==> a@[off + j] == p@[j],
        decreases p@.len() - i,
    {
        if a[off + i] != p[i] {
            proof {
                assert(s@.skip(off as int)[i as int] != suffix@[i as int]);
            }
            return false;
        }
        i += 1;
    }
    proof {
        assert(s@.skip(off as int) =~= suffix@);
    }
    true
}

/// Whether `needle` occurs in `hay` at position `i` (character-wise).
fn occurs_at_exec(hay: &Vec<char>, needle: &Vec<char>, i: usize) -> (b: bool)
    ensures
        b == occurs_at(hay@, needle@, i as int),
{
    if needle.len() > hay.len() || i > hay.len() - needle.len() {
        return false;
    }
    let mut j: usize = 0;
    while j < needle.len()
        invariant
            j <= needle@.len(),
            i + needle@.len() <= hay@.len(),
            hay@.len() == hay.len(),
            forall|k: int| 0 <= k < j ==> hay@[i + k] == needle@[k],
        decreases needle@.len() - j,
    {
        assert(i + j < hay@.len());
        if hay[i + j] != needle[j] {
            proof {
                assert(hay@.subrange(i as int, i + needle@.len())[j as int] != needle@[j as int]);
            }
            return false;
        }
        j += 1;
    }
    proof {
        assert(hay@.subrange(i as int, i + needle@.len()) =~= needle@);
    }
    true
}

/// The first position at which `needle` occurs in `hay`.
pub fn find_chars(hay: &Vec<char>, needle: &Vec<char>) -> (r: Option<usize>)
    ensures
        r matches Some(i) ==> occurs_at(hay@, needle@, i as int) && forall|k: int|
            0 <= k < i ==> !#[trigger] occurs_at(hay@, needle@, k),
        r is None ==> !contains(hay@, needle@),
{
    if needle.len() > hay.len() {
        return None;
    }
    let last = hay.len() - needle.len();
    let mut i: usize = 0;
    loop
        invariant
            needle@.len() <= hay@.len(),
            last == hay@.len() - needle@.len(),
            i <= last,
            forall|k: int| 0 <= k < i ==> !#[trigger] occurs_at(hay@, needle@, k),
        decreases last - i,
    {
        if occurs_at_exec(hay, needle, i) {
            return Some(i);
        }
        if i == last {
            proof {
                assert forall|k: int| #[trigger] occurs_at(hay@, needle@, k) implies false by {
                    if k > last as int {
                        assert(k + needle@.len() > hay@.len());
                    }
                }
            }
            return None;
        }
        i += 1;
    }
}

/// `str::contains` for a string needle.
pub fn contains_str(s: &str, needle: &str) -> (b: bool)
    ensures
        b == contains(s@, needle@),
{
    let h = chars_of(s);
    let n = chars_of(needle);
    find_chars(&h, &n).is_some()
}

/// The text with ASCII letters lowered, as `str::to_ascii_lowercase`
/// lowers them.
pub fn ascii_lowercase(s: &str) -> (r: String)
    ensures
        r@ == lower(s@),
{
    let cs = chars_of(s);
    let mut out: Vec<char> = Vec::new();
    let mut i: usize = 0;
    while i < cs.len()
        invariant
            i <= cs@.len(),
            out@ == lower(cs@.take(i as int)),
        decreases cs@.len() - i,
    {
        let c = cs[i];
        let l = if 'A' <= c && c <= 'Z' {
            ((c as u8) + 32) as char
        } else {
            c
        };
        out.push(l);
        proof {
            assert(cs@.take(i + 1) =~= cs@.take(i as int).push(c));
            assert(lower(cs@.take(i + 1)) =~= lower(cs@.take(i as int)).push(lower_char(c)));
        }
        i += 1;
    }
    proof {
        assert(cs@.take(cs@.len() as int) =~= cs@);
    }
    string_from_chars(out.as_slice())
}

/// The text with ASCII letters raised, as `str::to_ascii_uppercase`
/// raises them.
pub fn ascii_uppercase(s: &str) -> (r: String)
    ensures
        r@ == upper(s@),
{
    let cs = chars_of(s);
    let mut out: Vec<char> = Vec::new();
    let mut i: usize = 0;
    while i < cs.len()
        invariant
            i <= cs@.len(),
            out@ == upper(cs@.take(i as int)),
        decreases cs@.len() - i,
    {
        let c = cs[i];
        let u = if 'a' <= c && c <= 'z' {
            ((c as u8) - 32) as char
        } else {
            c
        };
        out.push(u);
        proof {
            assert(cs@.take(i + 1) =~= cs@.take(i as int).push(c));
            assert(upper(cs@.take(i + 1)) =~= upper(cs@.take(i as int)).push(upper_char(c)));
        }
        i += 1;
    }
    proof {
        assert(cs@.take(cs@.len() as int) =~= cs@);
    }
    string_from_chars(out.as_slice())
}

proof fn lemma_decimal_nonempty(n: nat)
    ensures
        decimal(n).len() >= 1,
    decreases n,
{
    if n >= 10 {
        lemma_decimal_nonempty(n / 10);
    }
}

pub fn decimal_chars(n: u64) -> (v: Vec<char>)
    ensures
        v@ == decimal(n as nat),
    decreases n,
{
    let d = n % 10;
    let c = ((d as u8) + 48) as char;
    if n < 10 {
        let v: Vec<char> = vec![c];
        proof {
            assert(v@ =~= seq![c]);
        }
        v
    } else {
        let mut v = decimal_chars(n / 10);
        v.push(c);
        v
    }
}

/// Decimal rendering of an unsigned integer.
pub fn u64_decimal(n: u64) -> (s: String)
    ensures
        s@ == decimal(n as nat),
{
    let v = decimal_chars(n);
    string_from_chars(v.as_slice())
}

/// The characters of the decimal rendering of a signed integer.
pub fn signed_decimal_chars(v: i64) -> (out: Vec<char>)
    ensures
        out@ == signed_decimal(v as int),
{
    if v < 0 {
        let magnitude: u64 = if v == i64::MIN {
            9223372036854775808u64
        } else {
            (-v) as u64
        };
        let mut out: Vec<char> = vec!['-'];
        let mut digits = decimal_chars(magnitude);
        out.append(&mut digits);
        proof {
            assert(out@ =~= seq!['-'] + decimal((-(v as int)) as nat));
        }
        out
    } else {
        decimal_chars(v as u64)
    }
}

/// Decimal rendering of a signed integer.
pub fn i64_decimal(v: i64) -> (s: String)
    ensures
        s@ == signed_decimal(v as int),
{
    let out = signed_decimal_chars(v);
    string_from_chars(out.as_slice())
}

/// `a` comes before `b` in the order of strings: the first differing
/// character decides, and a proper prefix comes first.
pub open spec fn str_lt(a: Seq<char>, b: Seq<char>) -> bool
    decreases a.len(),
{
    if a.len() == 0 {
        b.len() > 0
    } else if b.len() == 0 {
        false
    } else if a[0] != b[0] {
        (a[0] as u32) < (b[0] as u32)
    } else {
        str_lt(a.drop_first(), b.drop_first())
    }
}

/// Of two different strings, one comes before the other, and not both
/// ways round.
pub proof fn lemma_str_lt_total(a: Seq<char>, b: Seq<char>)
    ensures
        a != b ==> str_lt(a, b) || str_lt(b, a),
        !(str_lt(a, b) && str_lt(b, a)),
    decreases a.len(),
{
    if a.len() > 0 && b.len() > 0 {
        lemma_str_lt_total(a.drop_first(), b.drop_first());
        if a[0] != b[0] {
            vstd::utf8::char_u32_cast(a[0], a[0] as u32);
            vstd::utf8::char_u32_cast(b[0], b[0] as u32);
        }
        if a[0] == b[0] && a.drop_first() == b.drop_first() {
            assert(a =~= seq![a[0]] + a.drop_first());
            assert(b =~= seq![b[0]] + b.drop_first());
        }
    } else if a.len() == 0 && b.len() == 0 {
        assert(a =~= b);
    }
}

/// The order of strings is transitive.
pub proof fn lemma_str_lt_transitive(a: Seq<char>, b: Seq<char>, c: Seq<char>)
    requires
        str_lt(a, b),
        str_lt(b, c),
    ensures
        str_lt(a, c),
    decreases a.len(),
{
    if a.len() > 0 && b.len() > 0 && c.len() > 0 && a[0] == b[0] && b[0] == c[0] {
        lemma_str_lt_transitive(a.drop_first(), b.drop_first(), c.drop_first());
    }
}

/// The order of strings, decided character by character.
pub fn str_lt_exec(a: &str, b: &str) -> (r: bool)
    ensures
        r == str_lt(a@, b@),
{
    let ca = chars_of(a);
    let cb = chars_of(b);
    let mut i: usize = 0;
    proof {
        assert(ca@.skip(0) =~= ca@);
        assert(cb@.skip(0) =~= cb@);
    }
    while i < ca.len() && i < cb.len()
        invariant
            i <= ca@.len(),
            i <= cb@.len(),
            ca@ == a@,
            cb@ == b@,
            str_lt(a@, b@) == str_lt(ca@.skip(i as int), cb@.skip(i as int)),
        decreases ca@.len() - i,
    {
        let x = ca[i];
        let y = cb[i];
        proof {
            assert(ca@.skip(i as int)[0] == x);
            assert(cb@.skip(i as int)[0] == y);
        }
        if x != y {
            return (x as u32) < (y as u32);
        }
        proof {
            assert(ca@.skip(i as int).drop_first() =~= ca@.skip(i + 1));
            assert(cb@.skip(i as int).drop_first() =~= cb@.skip(i + 1));
        }
        i += 1;
    }
    i == ca.len() && i < cb.len()
}

} // verus!
