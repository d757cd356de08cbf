//! Content-Length framing of MCP messages on a server's standard output:
//! where a header ends, what length it declares, and which complete bodies
//! a buffer holds.
use vstd::prelude::*;
use vstd::utf8::{decode_utf8, valid_utf8};
use crate::mcp::protocol::McpTransportError;
use crate::mcp::server::McpServerError;
use crate::text::{ascii_lowercase, chars_of, concat3, decimal, lower, str_eq, string_from_chars, trim, trim_str, u64_decimal};

verus! {

/// The largest header or body a client accepts from a server.
pub const MAX_CLIENT_RESPONSE_BYTES: usize = 1048576;

// ---------------------------------------------------------------------
// The header terminator.
// ---------------------------------------------------------------------

/// `\r\n\r\n` starts at `i`.
pub open spec fn is_header_end_at(b: Seq<u8>, i: int) -> bool {
    0 <= i && i + 4 <= b.len() && b[i] == 13u8 && b[i + 1] == 10u8 && b[i + 2] == 13u8 && b[i + 3] == 10u8
}

/// The first place at or after `i` where `\r\n\r\n` starts.
pub open spec fn header_end_from(b: Seq<u8>, i: nat) -> Option<nat>
    decreases b.len() - i,
{
    if i + 4 > b.len() {
        None
    } else if is_header_end_at(b, i as int) {
        Some(i)
    } else {
        header_end_from(b, i + 1)
    }
}

/// Where the header of the first message ends: the first `\r\n\r\n`.
pub open spec fn header_end(b: Seq<u8>) -> Option<nat> {
    header_end_from(b, 0)
}

pub proof fn lemma_header_end_bounds(b: Seq<u8>, i: nat)
    ensures
        header_end_from(b, i) matches Some(h) ==> i <= h && h + 4 <= b.len() && is_header_end_at(b, h as int),
    decreases b.len() - i,
{
    if i + 4 <= b.len() && !is_header_end_at(b, i as int) {
        lemma_header_end_bounds(b, i + 1);
    }
}

fn scan_header_end(b: &[u8], start: usize) -> (r: Option<usize>)
    requires
        start <= b@.len(),
    ensures
        match r {
            Some(v) => header_end_from(b@, start as nat) == Some(v as nat),
            None => header_end_from(b@, start as nat) is None,
        },
{
    let n = b.len();
    let mut i: usize = start;
    while i < n && n - i >= 4
        invariant
            start <= i,
            n == b@.len(),
            i <= n,
            header_end_from(b@, start as nat) == header_end_from(b@, i as nat),
        decreases n - i,
    {
        if b[i] == 13u8 && b[i + 1] == 10u8 && b[i + 2] == 13u8 && b[i + 3] == 10u8 {
            return Some(i);
        }
        i += 1;
    }
    None
}

/// Where the first `\r\n\r\n` of the buffer starts.
pub fn find_header_end(buffer: &[u8]) -> (r: Option<usize>)
    ensures
        match r {
            Some(v) => header_end(buffer@) == Some(v as nat),
            None => header_end(buffer@) is None,
        },
{
    scan_header_end(buffer, 0)
}

// ---------------------------------------------------------------------
// The Content-Length header field.
// ---------------------------------------------------------------------

pub open spec fn is_ascii_digit(c: char) -> bool {
    '0' <= c && c <= '9'
}

/// The number the decimal digits spell.
pub open spec fn digits_value(s: Seq<char>) -> nat
    decreases s.len(),
{
    if s.len() == 0 {
        0
    } else {
        digits_value(s.drop_last()) * 10 + ((s.last() as int) - 48) as nat
    }
}

pub open spec fn all_digits(d: Seq<char>) -> bool {
    forall|i: int| 0 <= i < d.len() ==> is_ascii_digit(#[trigger] d[i])
}

/// `str::parse::<usize>`: an optional `+`, then one or more ASCII digits,
/// whose value fits a `usize`.
pub open spec fn parse_usize(s: Seq<char>) -> Option<nat> {
    let d = if s.len() > 0 && s[0] == '+' {
        s.drop_first()
    } else {
        s
    };
    if d.len() > 0 && all_digits(d) && digits_value(d) <= usize::MAX {
        Some(digits_value(d))
    } else {
        None
    }
}

/// The first occurrence of `c` at or after `i`.
pub open spec fn char_index_from(s: Seq<char>, c: char, i: nat) -> Option<nat>
    decreases s.len() - i,
{
    if i >= s.len() {
        None
    } else if s[i as int] == c {
        Some(i)
    } else {
        char_index_from(s, c, i + 1)
    }
}

pub proof fn lemma_char_index_bounds(s: Seq<char>, c: char, i: nat)
    ensures
        char_index_from(s, c, i) matches Some(k) ==> i <= k < s.len() && s[k as int] == c,
    decreases s.len() - i,
{
    if i < s.len() && s[i as int] != c {
        lemma_char_index_bounds(s, c, i + 1);
    }
}

/// The length one header line declares: a `Content-Length` name (any
/// ASCII case, surrounding whitespace ignored) before the first colon, and
/// a `usize` after it.
pub open spec fn line_content_length(line: Seq<char>) -> Option<nat> {
    match char_index_from(line, ':', 0) {
        None => None,
        Some(i) => if lower(trim(line.take(i as int))) == "content-length"@ {
            parse_usize(trim(line.skip(i + 1 as int)))
        } else {
            None
        },
    }
}

/// A line without the `\r` of its `\r\n` ending.
pub open spec fn strip_cr(line: Seq<char>) -> Seq<char> {
    if line.len() > 0 && line.last() == '\r' {
        line.drop_last()
    } else {
        line
    }
}

/// The length the first declaring line of a header gives, the header read
/// line by line as `str::lines` splits it.
pub open spec fn header_content_length(h: Seq<char>) -> Option<nat>
    decreases h.len(),
{
    match char_index_from(h, '\n', 0) {
        None => line_content_length(h),
        Some(k) => if k < h.len() {
            match line_content_length(strip_cr(h.take(k as int))) {
                Some(n) => Some(n),
                None => header_content_length(h.skip(k + 1 as int)),
            }
        } else {
            None
        },
    }
}

proof fn lemma_digits_value_prefix(d: Seq<char>, i: int, j: int)
    requires
        0 <= i <= j <= d.len(),
    ensures
        digits_value(d.take(i)) <= digits_value(d.take(j)),
    decreases j - i,
{
    if i < j {
        lemma_digits_value_prefix(d, i, j - 1);
        assert(d.take(j).drop_last() =~= d.take(j - 1));
    }
}

fn is_digit_exec(c: char) -> (b: bool)
    ensures
        b == is_ascii_digit(c),
{
    '0' <= c && c <= '9'
}

/// `str::parse::<usize>`.
pub fn parse_usize_exec(s: &str) -> (r: Option<usize>)
    ensures
        match r {
            Some(v) => parse_usize(s@) == Some(v as nat),
            None => parse_usize(s@) is None,
        },
{
    let cs = chars_of(s);
    let ghost sv = s@;
    let start: usize = if cs.len() > 0 && cs[0] == '+' {
        1
    } else {
        0
    };
    let ghost d = if sv.len() > 0 && sv[0] == '+' {
        sv.drop_first()
    } else {
        sv
    };
    proof {
        assert(d =~= sv.skip(start as int));
    }
    if start == cs.len() {
        return None;
    }
    let mut acc: usize = 0;
    let mut overflow = false;
    let mut i: usize = start;
    while i < cs.len()
        invariant
            start <= i <= cs@.len(),
            cs@ == sv,
            sv == s@,
            d == sv.skip(start as int),
            d == (if sv.len() > 0 && sv[0] == '+' {
                sv.drop_first()
            } else {
                sv
            }),
            d.len() > 0,
            forall|k: int| 0 <= k < i - start ==> is_ascii_digit(#[trigger] d[k]),
            !overflow ==> acc == digits_value(d.take(i - start)),
            overflow ==> digits_value(d.take(i - start)) > usize::MAX,
        decreases cs@.len() - i,
    {
        let c = cs[i];
        if !is_digit_exec(c) {
            assert(!is_ascii_digit(d[i - start]));
            assert(!all_digits(d));
            return None;
        }
        proof {
            assert(d.take(i - start + 1).drop_last() =~= d.take(i - start));
            assert(d.take(i - start + 1).last() == c);
        }
        let digit = (c as u32 - 48) as usize;
        if !overflow {
            match acc.checked_mul(10) {
                Some(m) => match m.checked_add(digit) {
                    Some(v) => {
                        acc = v;
                    },
                    None => {
                        overflow = true;
                    },
                },
                None => {
                    overflow = true;
                },
            }
        } else {
            proof {
                lemma_digits_value_prefix(d, i - start, i - start + 1);
            }
        }
        i += 1;
    }
    proof {
        assert(d.take(d.len() as int) =~= d);
    }
    if overflow {
        None
    } else {
        Some(acc)
    }
}

fn sub_chars(cs: &Vec<char>, a: usize, b: usize) -> (r: String)
    requires
        a <= b <= cs@.len(),
    ensures
        r@ == cs@.subrange(a as int, b as int),
{
    let mut out: Vec<char> = Vec::new();
    let mut i: usize = a;
    while i < b
        invariant
            a <= i <= b <= cs@.len(),
            out@ == cs@.subrange(a as int, i as int),
        decreases b - i,
    {
        out.push(cs[i]);
        i += 1;
    }
    string_from_chars(out.as_slice())
}

fn char_index_exec(cs: &Vec<char>, c: char, start: usize, end: usize) -> (r: Option<usize>)
    requires
        start <= end <= cs@.len(),
    ensures
        match char_index_from(cs@.subrange(start as int, end as int), c, 0) {
            Some(k) => r == Some((start + k) as usize),
            None => r is None,
        },
{
    let ghost s = cs@.subrange(start as int, end as int);
    let mut i: usize = start;
    while i < end
        invariant
            start <= i <= end <= cs@.len(),
            s == cs@.subrange(start as int, end as int),
            char_index_from(s, c, 0) == char_index_from(s, c, (i - start) as nat),
        decreases end - i,
    {
        if cs[i] == c {
            assert(s[i - start] == c);
            return Some(i);
        }
        assert(s[i - start] != c);
        i += 1;
    }
    None
}

fn line_content_length_exec(cs: &Vec<char>, start: usize, end: usize) -> (r: Option<usize>)
    requires
        start <= end <= cs@.len(),
    ensures
        match r {
            Some(v) => line_content_length(cs@.subrange(start as int, end as int)) == Some(v as nat),
            None => line_content_length(cs@.subrange(start as int, end as int)) is None,
        },
{
    let ghost line = cs@.subrange(start as int, end as int);
    let colon = char_index_exec(cs, ':', start, end);
    match colon {
        None => None,
        Some(k) => {
            proof {
                lemma_char_index_bounds(line, ':', 0);
                assert(line.take(k - start) =~= cs@.subrange(start as int, k as int));
                assert(line.skip(k - start + 1) =~= cs@.subrange(k + 1, end as int));
            }
            let name = sub_chars(cs, start, k);
            let trimmed = trim_str(name.as_str());
            let lowered = ascii_lowercase(trimmed.as_str());
            if !str_eq(lowered.as_str(), "content-length") {
                return None;
            }
            let value = sub_chars(cs, k + 1, end);
            let v = trim_str(value.as_str());
            parse_usize_exec(v.as_str())
        },
    }
}

/// The length the header declares, if one line does.
pub fn content_length(header: &str) -> (r: Option<usize>)
    ensures
        match r {
            Some(v) => header_content_length(header@) == Some(v as nat),
            None => header_content_length(header@) is None,
        },
{
    let cs = chars_of(header);
    let n = cs.len();
    let mut pos: usize = 0;
    proof {
        assert(header@.skip(0) =~= header@);
    }
    while pos <= n
        invariant
            pos <= n,
            n == cs@.len(),
            cs@ == header@,
            header_content_length(header@) == header_content_length(cs@.skip(pos as int)),
        decreases n - pos,
    {
        let ghost rest = cs@.skip(pos as int);
        let nl = char_index_exec(&cs, '\n', pos, n);
        proof {
            assert(rest =~= cs@.subrange(pos as int, n as int));
        }
        match nl {
            None => {
                return line_content_length_exec(&cs, pos, n);
            },
            Some(k) => {
                proof {
                    lemma_char_index_bounds(rest, '\n', 0);
                }
                let line_end: usize = if k > pos && cs[k - 1] == '\r' {
                    k - 1
                } else {
                    k
                };
                proof {
                    assert(strip_cr(rest.take(k - pos)) =~= cs@.subrange(pos as int, line_end as int));
                }
                let v = line_content_length_exec(&cs, pos, line_end);
                if v.is_some() {
                    return v;
                }
                proof {
                    assert(rest.skip(k - pos + 1) =~= cs@.skip(k + 1));
                }
                pos = k + 1;
            },
        }
    }
    None
}

// ---------------------------------------------------------------------
// Complete messages in a buffer.
// ---------------------------------------------------------------------

/// `std::str::from_utf8`: the text the bytes encode, exactly when they are
/// valid UTF-8.
#[verifier::external_body]
fn utf8_text(bytes: &[u8]) -> (r: Option<String>)
    ensures
        r is Some <==> valid_utf8(bytes@),
        r matches Some(s) ==> s@ == decode_utf8(bytes@),
{
    match std::str::from_utf8(bytes) {
        Ok(s) => Some(s.to_owned()),
        Err(_) => None,
    }
}

/// Why a buffer cannot be framed.
#[derive(Clone, Copy, Debug, PartialEq, Eq, Structural)]
pub enum FrameFault {
    ExceededLimit,
    InvalidHeader,
    MissingContentLength,
}

pub open spec fn fault_message(f: FrameFault) -> Seq<char> {
    match f {
        FrameFault::ExceededLimit => "MCP server response exceeded size limit."@,
        FrameFault::InvalidHeader => "MCP server sent an invalid header."@,
        FrameFault::MissingContentLength => "MCP server sent a response without Content-Length."@,
    }
}

fn fault_error(f: FrameFault) -> (e: McpTransportError)
    ensures
        e.kind == crate::mcp::protocol::McpTransportErrorKind::Failed,
        e.message@ == fault_message(f),
{
    let m = match f {
        FrameFault::ExceededLimit => "MCP server response exceeded size limit.",
        FrameFault::InvalidHeader => "MCP server sent an invalid header.",
        FrameFault::MissingContentLength => "MCP server sent a response without Content-Length.",
    };
    McpTransportError::failed(m.to_owned())
}

/// The complete message bodies at the front of a buffer, in order, and what
/// is left of it: the bytes from the first message that is not complete
/// yet, or from the message that cannot be framed.
pub open spec fn frames(b: Seq<u8>) -> (Result<Seq<Seq<u8>>, FrameFault>, Seq<u8>)
    decreases b.len(),
{
    match header_end(b) {
        None => (Ok(Seq::empty()), b),
        Some(h) => if h > MAX_CLIENT_RESPONSE_BYTES {
            (Err(FrameFault::ExceededLimit), b)
        } else if !valid_utf8(b.take(h as int)) {
            (Err(FrameFault::InvalidHeader), b)
        } else {
            match header_content_length(decode_utf8(b.take(h as int))) {
                None => (Err(FrameFault::MissingContentLength), b),
                Some(n) => if n > MAX_CLIENT_RESPONSE_BYTES {
                    (Err(FrameFault::ExceededLimit), b)
                } else if b.len() < h + 4 + n {
                    (Ok(Seq::empty()), b)
                } else {
                    let rest = frames(b.skip((h + 4 + n) as int));
                    (
                        match rest.0 {
                            Ok(fs) => Ok(seq![b.subrange((h + 4) as int, (h + 4 + n) as int)] + fs),
                            Err(e) => Err(e),
                        },
                        rest.1,
                    )
                },
            }
        },
    }
}

pub open spec fn prepend(
    done: Seq<Seq<u8>>,
    r: (Result<Seq<Seq<u8>>, FrameFault>, Seq<u8>),
) -> (Result<Seq<Seq<u8>>, FrameFault>, Seq<u8>) {
    (
        match r.0 {
            Ok(fs) => Ok(done + fs),
            Err(e) => Err(e),
        },
        r.1,
    )
}

pub open spec fn bodies_view(v: Seq<Vec<u8>>) -> Seq<Seq<u8>> {
    v.map_values(|b: Vec<u8>| b@)
}

/// One step of framing at the front of `rest`.
pub enum FrameStep {
    Fault(FrameFault),
    Incomplete,
    Body(Vec<u8>, usize),
}

fn frame_one(rest: &[u8]) -> (r: FrameStep)
    ensures
        match r {
            FrameStep::Fault(f) => frames(rest@) == (Err::<Seq<Seq<u8>>, FrameFault>(f), rest@),
            FrameStep::Incomplete => frames(rest@) == (Ok::<Seq<Seq<u8>>, FrameFault>(Seq::empty()), rest@),
            FrameStep::Body(body, adv) => 4 <= adv <= rest@.len() && frames(rest@) == prepend(
                seq![body@],
                frames(rest@.skip(adv as int)),
            ),
        },
{
    let h = match find_header_end(rest) {
        None => return FrameStep::Incomplete,
        Some(h) => h,
    };
    proof {
        lemma_header_end_bounds(rest@, 0);
    }
    if h > MAX_CLIENT_RESPONSE_BYTES {
        return FrameStep::Fault(FrameFault::ExceededLimit);
    }
    let header_bytes = vstd::slice::slice_subrange(rest, 0, h);
    proof {
        assert(header_bytes@ =~= rest@.take(h as int));
    }
    let header = match utf8_text(header_bytes) {
        None => {
            return FrameStep::Fault(FrameFault::InvalidHeader);
        },
        Some(t) => t,
    };
    let n = match content_length(header.as_str()) {
        None => return FrameStep::Fault(FrameFault::MissingContentLength),
        Some(n) => n,
    };
    if n > MAX_CLIENT_RESPONSE_BYTES {
        return FrameStep::Fault(FrameFault::ExceededLimit);
    }
    if rest.len() < h + 4 + n {
        return FrameStep::Incomplete;
    }
    let body = vstd::slice::slice_to_vec(vstd::slice::slice_subrange(rest, h + 4, h + 4 + n));
    proof {
        let rv = rest@;
        assert(body@ =~= rv.subrange(h + 4, h + 4 + n));
        let tail = frames(rv.skip(h + 4 + n));
        match tail.0 {
            Ok(fs) => {
                assert(seq![body@] + fs =~= seq![rv.subrange(h + 4, h + 4 + n)] + fs);
            },
            Err(_) => {},
        }
    }
    FrameStep::Body(body, h + 4 + n)
}

/// Takes every complete message off the front of the buffer and hands back the
/// bodies in order. The buffer keeps what is not framed yet (on an error:
/// from the message that failed on).
pub fn frame_available_messages(buffer: &mut Vec<u8>) -> (r: Result<Vec<Vec<u8>>, McpTransportError>)
    ensures
        final(buffer)@ == frames(old(buffer)@).1,
        match frames(old(buffer)@).0 {
            Ok(fs) => r matches Ok(v) && bodies_view(v@) == fs,
            Err(f) => r matches Err(e) && e.kind == crate::mcp::protocol::McpTransportErrorKind::Failed
                && e.message@ == fault_message(f),
        },
{
    let ghost b0 = buffer@;
    let mut bodies: Vec<Vec<u8>> = Vec::new();
    let mut pos: usize = 0;
    proof {
        assert(b0.skip(0) =~= b0);
        assert(bodies_view(bodies@) =~= Seq::<Seq<u8>>::empty());
        match frames(b0).0 {
            Ok(fs) => {
                assert(Seq::<Seq<u8>>::empty() + fs =~= fs);
            },
            Err(_) => {},
        }
    }
    let mut fault: Option<FrameFault> = None;
    loop
        invariant_except_break
            pos <= buffer@.len(),
            buffer@ == b0,
            fault is None,
            frames(b0) == prepend(bodies_view(bodies@), frames(b0.skip(pos as int))),
        ensures
            pos <= buffer@.len(),
            buffer@ == b0,
            fault is None ==> frames(b0) == prepend(
                bodies_view(bodies@),
                (Ok::<Seq<Seq<u8>>, FrameFault>(Seq::empty()), b0.skip(pos as int)),
            ),
            fault matches Some(f) ==> frames(b0) == (Err::<Seq<Seq<u8>>, FrameFault>(f), b0.skip(pos as int)),
        decreases buffer@.len() - pos,
    {
        let n_all = buffer.len();
        let rest = vstd::slice::slice_subrange(buffer.as_slice(), pos, n_all);
        proof {
            assert(rest@ =~= b0.skip(pos as int));
        }
        match frame_one(rest) {
            FrameStep::Fault(f) => {
                fault = Some(f);
                break;
            },
            FrameStep::Incomplete => {
                break;
            },
            FrameStep::Body(body, adv) => {
                let ghost before = bodies_view(bodies@);
                let ghost bv = body@;
                bodies.push(body);
                proof {
                    assert(bodies_view(bodies@) =~= before.push(bv));
                    assert(b0.skip(pos as int).skip(adv as int) =~= b0.skip(pos + adv));
                    match frames(b0.skip(pos + adv)).0 {
                        Ok(fs) => {
                            assert(before + (seq![bv] + fs) =~= before.push(bv) + fs);
                        },
                        Err(_) => {},
                    }
                }
                pos = pos + adv;
            },
        }
    }
    let tail = buffer.split_off(pos);
    *buffer = tail;
    match fault {
        Some(f) => Err(fault_error(f)),
        None => {
            proof {
                assert(bodies_view(bodies@) + Seq::<Seq<u8>>::empty() =~= bodies_view(bodies@));
            }
            Ok(bodies)
        },
    }
}

/// Whether the buffer already holds more than a client may take: over the
/// limit with no header end in reach, a header past the limit, or bytes
/// beyond a complete message of lawful size.
pub open spec fn exceeds_limit(b: Seq<u8>) -> bool {
    if b.len() <= MAX_CLIENT_RESPONSE_BYTES {
        false
    } else {
        match header_end(b) {
            None => true,
            Some(h) => if h > MAX_CLIENT_RESPONSE_BYTES {
                true
            } else if !valid_utf8(b.take(h as int)) {
                false
            } else {
                match header_content_length(decode_utf8(b.take(h as int))) {
                    None => false,
                    Some(n) => if n > MAX_CLIENT_RESPONSE_BYTES {
                        false
                    } else {
                        b.len() > h + 4 + n
                    },
                }
            },
        }
    }
}

/// Whether the buffered response has grown past the client's limit.
pub fn buffered_client_response_exceeds_limit(buffer: &[u8]) -> (b: bool)
    ensures
        b == exceeds_limit(buffer@),
{
    if buffer.len() <= MAX_CLIENT_RESPONSE_BYTES {
        return false;
    }
    let h = match find_header_end(buffer) {
        None => return true,
        Some(h) => h,
    };
    proof {
        lemma_header_end_bounds(buffer@, 0);
    }
    if h > MAX_CLIENT_RESPONSE_BYTES {
        return true;
    }
    let header_bytes = vstd::slice::slice_subrange(buffer, 0, h);
    proof {
        assert(header_bytes@ =~= buffer@.take(h as int));
    }
    let header = match utf8_text(header_bytes) {
        None => return false,
        Some(t) => t,
    };
    let n = match content_length(header.as_str()) {
        None => return false,
        Some(n) => n,
    };
    if n > MAX_CLIENT_RESPONSE_BYTES {
        return false;
    }
    buffer.len() > h + 4 + n
}

// ---------------------------------------------------------------------
// Requests arriving at a served MCP endpoint.
// ---------------------------------------------------------------------

/// The largest request a served endpoint buffers.
pub const MAX_SERVER_REQUEST_BYTES: usize = 4194304;

/// Why a request buffer cannot be framed.
#[derive(Clone, Copy, Debug, PartialEq, Eq, Structural)]
pub enum RequestFault {
    HeaderNotUtf8,
    MissingContentLength,
    TooLarge(usize),
}

pub open spec fn request_fault_message(f: RequestFault) -> Seq<char> {
    match f {
        RequestFault::HeaderNotUtf8 => "MCP request header must be UTF-8."@,
        RequestFault::MissingContentLength => "MCP request requires a Content-Length header."@,
        RequestFault::TooLarge(n) => "MCP request declared Content-Length "@ + decimal(n as nat)
            + ", exceeding 4194304-byte limit."@,
    }
}

/// The first complete request body at the front of the buffer, if there is
/// one yet, and what is left of the buffer.
pub open spec fn next_request(b: Seq<u8>) -> (Result<Option<Seq<u8>>, RequestFault>, Seq<u8>) {
    match header_end(b) {
        None => (Ok(None), b),
        Some(h) => if !valid_utf8(b.take(h as int)) {
            (Err(RequestFault::HeaderNotUtf8), b)
        } else {
            match header_content_length(decode_utf8(b.take(h as int))) {
                None => (Err(RequestFault::MissingContentLength), b),
                Some(n) => if n > MAX_SERVER_REQUEST_BYTES {
                    (Err(RequestFault::TooLarge(n as usize)), b)
                } else if b.len() < h + 4 + n {
                    (Ok(None), b)
                } else {
                    (Ok(Some(b.subrange((h + 4) as int, (h + 4 + n) as int))), b.skip((h + 4 + n) as int))
                },
            }
        },
    }
}

/// One request taken off the front of a served endpoint's buffer: the body
/// of the first complete request, or `None` while it is incomplete. The
/// buffer loses exactly the request taken.
pub fn take_request_frame(buffer: &mut Vec<u8>) -> (r: Result<Option<Vec<u8>>, McpServerError>)
    ensures
        final(buffer)@ == next_request(old(buffer)@).1,
        match next_request(old(buffer)@).0 {
            Ok(None) => r matches Ok(None),
            Ok(Some(body)) => r matches Ok(Some(v)) && v@ == body,
            Err(f) => r matches Err(e) && e.message@ == request_fault_message(f),
        },
{
    let ghost b0 = buffer@;
    let h = match find_header_end(buffer.as_slice()) {
        None => return Ok(None),
        Some(h) => h,
    };
    proof {
        lemma_header_end_bounds(b0, 0);
    }
    let header_bytes = vstd::slice::slice_subrange(buffer.as_slice(), 0, h);
    proof {
        assert(header_bytes@ =~= b0.take(h as int));
    }
    let header = match utf8_text(header_bytes) {
        None => return Err(McpServerError::new("MCP request header must be UTF-8.".to_owned())),
        Some(t) => t,
    };
    let n = match content_length(header.as_str()) {
        None => return Err(McpServerError::new("MCP request requires a Content-Length header.".to_owned())),
        Some(n) => n,
    };
    if n > MAX_SERVER_REQUEST_BYTES {
        let message = concat3(
            "MCP request declared Content-Length ",
            u64_decimal(n as u64).as_str(),
            ", exceeding 4194304-byte limit.",
        );
        return Err(McpServerError::new(message));
    }
    if buffer.len() - (h + 4) < n {
        return Ok(None);
    }
    let body = vstd::slice::slice_to_vec(vstd::slice::slice_subrange(buffer.as_slice(), h + 4, h + 4 + n));
    let tail = buffer.split_off(h + 4 + n);
    *buffer = tail;
    proof {
        assert(body@ =~= b0.subrange((h + 4) as int, (h + 4 + n) as int));
        assert(buffer@ =~= b0.skip((h + 4 + n) as int));
    }
    Ok(Some(body))
}

/// The refusal of a request buffer past the limit, `None` within it.
pub fn check_request_buffer(len: usize) -> (r: Option<McpServerError>)
    ensures
        r is Some <==> len > MAX_SERVER_REQUEST_BYTES,
        r matches Some(e) ==> e.message@ == "MCP request exceeded 4194304-byte size limit."@,
{
    if len > MAX_SERVER_REQUEST_BYTES {
        Some(McpServerError::new("MCP request exceeded 4194304-byte size limit.".to_owned()))
    } else {
        None
    }
}

// ---------------------------------------------------------------------
// Writing a framed message.
// ---------------------------------------------------------------------

/// The header line that announces a body of `len` bytes.
pub open spec fn frame_header(len: nat) -> Seq<char> {
    "Content-Length: "@ + decimal(len) + "\r\n\r\n"@
}

/// A framed message: its header, UTF-8 encoded, then the body.
pub open spec fn framed(body: Seq<u8>) -> Seq<u8> {
    vstd::utf8::encode_utf8(frame_header(body.len())) + body
}

/// `write_message` and `write_framed_json`, up to the write: the bytes
/// that carry one message body.
pub fn frame_message(body: &[u8]) -> (r: Vec<u8>)
    ensures
        r@ == framed(body@),
{
    let header = concat3("Content-Length: ", u64_decimal(body.len() as u64).as_str(), "\r\n\r\n");
    let mut out = vstd::slice::slice_to_vec(header.as_str().as_bytes());
    let mut i: usize = 0;
    let ghost start = out@;
    while i < body.len()
        invariant
            i <= body@.len(),
            out@ == start + body@.take(i as int),
        decreases body@.len() - i,
    {
        out.push(body[i]);
        i += 1;
        proof {
            assert(out@ =~= start + body@.take(i as int));
        }
    }
    proof {
        assert(body@.take(body@.len() as int) =~= body@);
    }
    out
}

// ---------------------------------------------------------------------
// Reading back what was written.
// ---------------------------------------------------------------------

proof fn lemma_decimal_digits(n: nat)
    ensures
        decimal(n).len() >= 1,
        all_digits(decimal(n)),
        digits_value(decimal(n)) == n,
        vstd::utf8::is_ascii_chars(decimal(n)),
    decreases n,
{
    let d = decimal(n);
    let m = n % 10;
    assert(d.last() == crate::text::digit_char(m));
    assert((d.last() as int) == m + 48);
    assert(d.len() > 0) by {
        if n >= 10 {
            assert(d == decimal(n / 10).push(crate::text::digit_char(m)));
        }
    }
    assert(digits_value(d) == digits_value(d.drop_last()) * 10 + m);
    if n >= 10 {
        lemma_decimal_digits(n / 10);
        assert(d.drop_last() =~= decimal(n / 10));
        assert((n / 10) * 10 + n % 10 == n) by (nonlinear_arith);
    } else {
        assert(d.drop_last() =~= Seq::<char>::empty());
        assert(m == n);
    }
}

pub open spec fn pow10(k: nat) -> nat
    decreases k,
{
    if k == 0 {
        1
    } else {
        10 * pow10((k - 1) as nat)
    }
}

proof fn lemma_decimal_len(n: nat, k: nat)
    requires
        k >= 1,
        n < pow10(k),
    ensures
        decimal(n).len() <= k,
    decreases k,
{
    if n >= 10 {
        assert(k >= 2) by {
            if k == 1 {
                assert(pow10(1) == 10) by {
                    reveal_with_fuel(pow10, 2);
                }
            }
        }
        assert(n / 10 < pow10((k - 1) as nat)) by (nonlinear_arith)
            requires
                n < pow10(k),
                pow10(k) == 10 * pow10((k - 1) as nat),
        ;
        lemma_decimal_len(n / 10, (k - 1) as nat);
    }
}

proof fn lemma_header_end_exact(b: Seq<u8>, i: nat, k: nat)
    requires
        i <= k,
        is_header_end_at(b, k as int),
        forall|j: int| i <= j < k ==> !is_header_end_at(b, j),
    ensures
        header_end_from(b, i) == Some(k),
    decreases k - i,
{
    if i < k {
        lemma_header_end_exact(b, i + 1, k);
    }
}

proof fn lemma_char_index_exact(s: Seq<char>, c: char, i: nat, k: nat)
    requires
        i <= k < s.len(),
        s[k as int] == c,
        forall|j: int| i <= j < k ==> s[j] != c,
    ensures
        char_index_from(s, c, i) == Some(k),
    decreases k - i,
{
    if i < k {
        lemma_char_index_exact(s, c, i + 1, k);
    }
}

proof fn lemma_char_index_absent(s: Seq<char>, c: char, i: nat)
    requires
        forall|j: int| i <= j < s.len() ==> s[j] != c,
    ensures
        char_index_from(s, c, i) is None,
    decreases s.len() - i,
{
    if i < s.len() {
        lemma_char_index_absent(s, c, i + 1);
    }
}

/// `trim` leaves a text alone that neither starts nor ends with whitespace.
proof fn lemma_trim_unchanged(s: Seq<char>)
    requires
        s.len() > 0,
        !crate::text::is_ws(s[0]),
        !crate::text::is_ws(s.last()),
    ensures
        trim(s) == s,
{
    crate::text::lemma_lead_count_exact(s, crate::text::ws(), 0);
    assert(s.skip(0) =~= s);
    crate::text::lemma_tail_count_exact(s, crate::text::ws(), 0);
    assert(s.take(s.len() as int) =~= s);
}

/// How a framed message reads: where its header ends, that the header is
/// UTF-8 declaring the body's length, and where the body lies.
proof fn lemma_framed_parts(body: Seq<u8>) -> (hl: nat)
    requires
        body.len() < 10000000,
    ensures
        hl <= 23,
        header_end(framed(body)) == Some(hl),
        valid_utf8(framed(body).take(hl as int)),
        header_content_length(decode_utf8(framed(body).take(hl as int))) == Some(body.len()),
        framed(body).len() == hl + 4 + body.len(),
        framed(body).subrange((hl + 4) as int, (hl + 4 + body.len()) as int) == body,
        framed(body).skip((hl + 4 + body.len()) as int) == Seq::<u8>::empty(),
{
    let n = body.len();
    let d = decimal(n);
    lemma_decimal_digits(n);
    assert(pow10(7) == 10000000) by {
        reveal_with_fuel(pow10, 8);
    }
    lemma_decimal_len(n, 7);
    reveal_strlit("Content-Length: ");
    reveal_strlit("\r\n\r\n");
    reveal_strlit("content-length");
    let p = "Content-Length: "@;
    let t = "\r\n\r\n"@;
    let h = frame_header(n);
    assert(h =~= p + d + t);
    assert(vstd::utf8::is_ascii_chars(h)) by {
        assert forall|i: int| 0 <= i < h.len() implies '\0' <= #[trigger] h[i] <= '\u{7f}' by {
            if i < 16 {
                assert(h[i] == p[i]);
            } else if i < 16 + d.len() {
                assert(h[i] == d[i - 16]);
                assert(is_ascii_digit(d[i - 16]));
            } else {
                assert(h[i] == t[i - 16 - d.len()]);
            }
        }
    }
    vstd::utf8::is_ascii_chars_encode_utf8(h);
    let eh = vstd::utf8::encode_utf8(h);
    let b = framed(body);
    assert(b == eh + body);
    let hl = (16 + d.len()) as nat;
    // The header ends right after the digits.
    assert forall|j: int| 0 <= j < hl implies !is_header_end_at(b, j) by {
        assert(b[j] == eh[j]);
        assert(eh[j] == h[j] as u8);
        if j < 16 {
            assert(h[j] == p[j]);
        } else {
            assert(h[j] == d[j - 16]);
            assert(is_ascii_digit(d[j - 16]));
        }
    }
    assert(is_header_end_at(b, hl as int)) by {
        assert(b[hl as int] == eh[hl as int]);
        assert(h[hl as int] == t[0]);
        assert(b[hl + 1int] == eh[hl + 1int]);
        assert(h[hl + 1int] == t[1]);
        assert(b[hl + 2int] == eh[hl + 2int]);
        assert(h[hl + 2int] == t[2]);
        assert(b[hl + 3int] == eh[hl + 3int]);
        assert(h[hl + 3int] == t[3]);
    }
    lemma_header_end_exact(b, 0, hl);
    assert(header_end(b) == Some(hl));
    // The header bytes are the encoding of the line before the terminator.
    let line = p + d;
    assert(vstd::utf8::is_ascii_chars(line)) by {
        assert forall|i: int| 0 <= i < line.len() implies '\0' <= #[trigger] line[i] <= '\u{7f}' by {
            assert(line[i] == h[i]);
        }
    }
    vstd::utf8::is_ascii_chars_encode_utf8(line);
    assert(b.take(hl as int) =~= vstd::utf8::encode_utf8(line)) by {
        assert forall|i: int| 0 <= i < hl implies b.take(hl as int)[i] == vstd::utf8::encode_utf8(line)[i] by {
            assert(b[i] == eh[i]);
            assert(line[i] == h[i]);
        }
    }
    vstd::utf8::encode_utf8_valid_utf8(line);
    vstd::utf8::encode_utf8_decode_utf8(line);
    // The line declares the body's length.
    assert forall|j: int| 0 <= j < line.len() implies line[j] != '\n' by {
        if j < 16 {
            assert(line[j] == p[j]);
        } else {
            assert(line[j] == d[j - 16]);
            assert(is_ascii_digit(d[j - 16]));
        }
    }
    lemma_char_index_absent(line, '\n', 0);
    assert forall|j: int| 0 <= j < 14 implies line[j] != ':' by {
        assert(line[j] == p[j]);
    }
    assert(line[14] == ':');
    lemma_char_index_exact(line, ':', 0, 14);
    let name = line.take(14);
    assert(name =~= "Content-Length"@) by {
        reveal_strlit("Content-Length");
    }
    lemma_trim_unchanged(name);
    assert(lower(name) =~= "content-length"@);
    let value = line.skip(15);
    assert(value =~= seq![' '] + d);
    crate::text::lemma_lead_count_exact(value, crate::text::ws(), 1);
    let front = value.skip(1);
    assert(front =~= d);
    crate::text::lemma_tail_count_exact(front, crate::text::ws(), 0);
    assert(front.take(front.len() as int) =~= d);
    assert(trim(value) == d);
    assert(d[0] != '+');
    assert(parse_usize(d) == Some(n));
    assert(line_content_length(line) == Some(n));
    assert(header_content_length(line) == Some(n));
    // The body follows, and nothing after it.
    assert(b.len() == hl + 4 + n);
    assert(b.subrange((hl + 4) as int, (hl + 4 + n) as int) =~= body);
    assert(b.skip((hl + 4 + n) as int) =~= Seq::<u8>::empty());
    assert(valid_utf8(b.take(hl as int)));
    assert(decode_utf8(b.take(hl as int)) == line);
    hl
}


/// A message written with its `Content-Length` header is read back as
/// exactly its body, with nothing left over, for every body the client
/// accepts.
pub proof fn law_framed_message_reads_back(body: Seq<u8>)
    requires
        body.len() <= MAX_CLIENT_RESPONSE_BYTES,
    ensures
        frames(framed(body)) == (Ok::<Seq<Seq<u8>>, FrameFault>(seq![body]), Seq::<u8>::empty()),
{
    let hl = lemma_framed_parts(body);
    assert(header_end(Seq::<u8>::empty()) is None);
    assert(frames(Seq::<u8>::empty()) == (Ok::<Seq<Seq<u8>>, FrameFault>(Seq::empty()), Seq::<u8>::empty()));
    assert(seq![body] + Seq::<Seq<u8>>::empty() =~= seq![body]);
}

/// A request written with its `Content-Length` header is taken off a
/// served endpoint's buffer as exactly its body, leaving the buffer empty,
/// for every body within the request limit.
pub proof fn law_framed_request_reads_back(body: Seq<u8>)
    requires
        body.len() <= MAX_SERVER_REQUEST_BYTES,
    ensures
        next_request(framed(body)) == (Ok::<Option<Seq<u8>>, RequestFault>(Some(body)), Seq::<u8>::empty()),
{
    lemma_framed_parts(body);
}

/// Bytes appended after a header end do not move it.
proof fn lemma_header_end_prefix(x: Seq<u8>, y: Seq<u8>, i: nat)
    requires
        header_end_from(x, i) is Some,
    ensures
        header_end_from(x + y, i) == header_end_from(x, i),
    decreases x.len() - i,
{
    let b = x + y;
    assert(i + 4 <= x.len());
    if is_header_end_at(x, i as int) {
        assert(b[i as int] == x[i as int] && b[i as int + 1] == x[i as int + 1] && b[i as int + 2] == x[i as int + 2] && b[i as int + 3] == x[i as int + 3]);
    } else {
        assert(!is_header_end_at(b, i as int)) by {
            assert(b[i as int] == x[i as int] && b[i as int + 1] == x[i as int + 1] && b[i as int + 2] == x[i as int + 2] && b[i as int + 3] == x[i as int + 3]);
        }
        lemma_header_end_prefix(x, y, i + 1);
    }
}

/// Complete messages are split off the front of a buffer one by one: a
/// framed message followed by any bytes reads as its body ahead of
/// whatever those bytes read as, and leaves what they leave.
pub proof fn law_frames_split_off_complete_messages(body: Seq<u8>, rest: Seq<u8>)
    requires
        body.len() <= MAX_CLIENT_RESPONSE_BYTES,
    ensures
        frames(framed(body) + rest) == ((match frames(rest).0 {
            Ok(fs) => Ok::<Seq<Seq<u8>>, FrameFault>(seq![body] + fs),
            Err(e) => Err(e),
        }), frames(rest).1),
{
    let hl = lemma_framed_parts(body);
    let f = framed(body);
    let b = f + rest;
    let n = body.len();
    lemma_header_end_prefix(f, rest, 0);
    assert(header_end(b) == Some(hl));
    assert(b.take(hl as int) =~= f.take(hl as int));
    assert(b.subrange((hl + 4) as int, (hl + 4 + n) as int) =~= f.subrange((hl + 4) as int, (hl + 4 + n) as int));
    assert(b.skip((hl + 4 + n) as int) =~= rest);
}

} // verus!
