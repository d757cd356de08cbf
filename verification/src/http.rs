//! Hosted HTTP requests: their model, which headers are secret, which
//! headers may be sent, and which URLs a hosted client may reach (http or
//! https, and only publicly routable hosts).
use vstd::prelude::*;
use crate::reference::opt_str;
use crate::step_output::{debug_quoted, debug_str};
use crate::text::{ascii_lowercase, concat, concat3, contains, contains_str, decimal, join, join_strings, lower, str_eq,
    trim, trim_str, u64_decimal};

verus! {

#[derive(Clone, Copy, Debug, PartialEq, Eq, Structural)]
pub enum HttpMethod {
    Get,
    Post,
    Delete,
}

impl HttpMethod {
    pub fn as_str(self) -> (r: &'static str)
        ensures
            r@ == (match self {
                HttpMethod::Get => "GET"@,
                HttpMethod::Post => "POST"@,
                HttpMethod::Delete => "DELETE"@,
            }),
    {
        match self {
            HttpMethod::Get => "GET",
            HttpMethod::Post => "POST",
            HttpMethod::Delete => "DELETE",
        }
    }
}

/// One request header.
#[derive(Clone, PartialEq)]
pub struct HostedHttpHeader {
    pub name: String,
    pub value: String,
}

impl HostedHttpHeader {
    pub fn new(name: &str, value: &str) -> (r: Self)
        ensures
            r.name@ == name@,
            r.value@ == value@,
    {
        HostedHttpHeader { name: name.to_owned(), value: value.to_owned() }
    }

    /// The header as it may be shown: a sensitive header's value replaced
    /// by `[redacted]`.
    pub fn redacted(&self) -> (r: Self)
        ensures
            r.name@ == self.name@,
            r.value@ == (if sensitive_name(self.name@) {
                "[redacted]"@
            } else {
                self.value@
            }),
    {
        let value = if sensitive_header_name(self.name.as_str()) {
            "[redacted]".to_owned()
        } else {
            self.value.clone()
        };
        HostedHttpHeader { name: self.name.clone(), value }
    }

    /// The header as it may be shown, as text: its name and its value, a
    /// sensitive header's value replaced by `[redacted]`.
    pub fn redacted_text(&self) -> (r: String)
        ensures
            r@ == header_text(self.name@, self.value@),
    {
        let shown = self.redacted();
        let mut t = "HostedHttpHeader { name: ".to_owned();
        t.append(debug_quoted(shown.name.as_str()).as_str());
        t.append(", value: ");
        t.append(debug_quoted(shown.value.as_str()).as_str());
        t.append(" }");
        t
    }
}

/// A header as it may be shown: name and value quoted as `{:?}` quotes
/// them, a sensitive header's value replaced by `[redacted]`.
pub open spec fn header_text(name: Seq<char>, value: Seq<char>) -> Seq<char> {
    "HostedHttpHeader { name: "@ + debug_str(name) + ", value: "@ + debug_str(
        if sensitive_name(name) {
            "[redacted]"@
        } else {
            value
        },
    ) + " }"@
}

/// The method's name as `{:?}` writes it.
pub open spec fn method_debug(m: HttpMethod) -> Seq<char> {
    match m {
        HttpMethod::Get => "Get"@,
        HttpMethod::Post => "Post"@,
        HttpMethod::Delete => "Delete"@,
    }
}

/// A request as it may be shown: its method, its URL, its headers as they
/// may be shown, and only whether it has a body.
pub open spec fn request_text(request: HostedHttpRequest) -> Seq<char> {
    "HostedHttpRequest { method: "@ + method_debug(request.method) + ", url: "@ + debug_str(request.url@)
        + ", headers: ["@ + join(request.headers@.map_values(|h: HostedHttpHeader| header_text(h.name@, h.value@)), ", "@)
        + "], body: "@ + (match request.body {
        Some(_) => "Some("@ + debug_str("[redacted body present]"@) + ")"@,
        None => "None"@,
    }) + " }"@
}

/// A request to a hosted service.
#[derive(Clone, PartialEq)]
pub struct HostedHttpRequest {
    pub method: HttpMethod,
    pub url: String,
    pub headers: Vec<HostedHttpHeader>,
    pub body: Option<String>,
}

impl HostedHttpRequest {
    /// The request as it may be shown: sensitive header values redacted,
    /// and only the presence of a body.
    pub fn redacted(&self) -> (r: Self)
        ensures
            r.method == self.method,
            r.url@ == self.url@,
            r.headers@.len() == self.headers@.len(),
            forall|i: int|
                0 <= i < self.headers@.len() ==> (#[trigger] r.headers@[i]).name@ == self.headers@[i].name@
                    && r.headers@[i].value@ == (if sensitive_name(self.headers@[i].name@) {
                    "[redacted]"@
                } else {
                    self.headers@[i].value@
                }),
            opt_str(r.body) == (match self.body {
                Some(_) => Some("[redacted body present]"@),
                None => None,
            }),
    {
        let mut headers: Vec<HostedHttpHeader> = Vec::new();
        let mut i: usize = 0;
        while i < self.headers.len()
            invariant
                i <= self.headers@.len(),
                headers@.len() == i,
                forall|j: int|
                    0 <= j < i ==> (#[trigger] headers@[j]).name@ == self.headers@[j].name@
                        && headers@[j].value@ == (if sensitive_name(self.headers@[j].name@) {
                        "[redacted]"@
                    } else {
                        self.headers@[j].value@
                    }),
            decreases self.headers@.len() - i,
        {
            headers.push(self.headers[i].redacted());
            i += 1;
        }
        let body = match &self.body {
            Some(_) => Some("[redacted body present]".to_owned()),
            None => None,
        };
        HostedHttpRequest { method: self.method, url: self.url.clone(), headers, body }
    }

    /// The request as it may be shown, as text: sensitive header values
    /// redacted, and only the presence of a body.
    pub fn redacted_text(&self) -> (r: String)
        ensures
            r@ == request_text(*self),
    {
        let mut parts: Vec<String> = Vec::new();
        let mut i: usize = 0;
        while i < self.headers.len()
            invariant
                i <= self.headers@.len(),
                parts@.len() == i,
                forall|j: int| 0 <= j < i ==> (#[trigger] parts@[j])@ == header_text(self.headers@[j].name@, self.headers@[j].value@),
            decreases self.headers@.len() - i,
        {
            parts.push(self.headers[i].redacted_text());
            i += 1;
        }
        proof {
            assert(parts@.map_values(|p: String| p@) =~= self.headers@.map_values(
                |h: HostedHttpHeader| header_text(h.name@, h.value@),
            ));
        }
        let method = match self.method {
            HttpMethod::Get => "Get",
            HttpMethod::Post => "Post",
            HttpMethod::Delete => "Delete",
        };
        let mut t = "HostedHttpRequest { method: ".to_owned();
        t.append(method);
        t.append(", url: ");
        t.append(debug_quoted(self.url.as_str()).as_str());
        t.append(", headers: [");
        t.append(join_strings(&parts, ", ").as_str());
        t.append("], body: ");
        match &self.body {
            Some(_) => {
                t.append("Some(");
                t.append(debug_quoted("[redacted body present]").as_str());
                t.append(")");
            },
            None => {
                t.append("None");
            },
        }
        t.append(" }");
        proof {
            reveal_strlit("Get");
            reveal_strlit("Post");
            reveal_strlit("Delete");
        }
        t
    }
}

/// A hosted service's answer.
#[derive(Clone, PartialEq)]
pub struct HostedHttpResponse {
    pub status: u16,
    pub body: String,
}

impl HostedHttpResponse {
    /// The response as it may be shown: its status and the size of its
    /// body in bytes, never the body itself.
    pub fn redacted_text(&self) -> (r: String)
        ensures
            r@ == "HostedHttpResponse { status: "@ + decimal(self.status as nat) + ", body: "@
                + decimal(vstd::utf8::encode_utf8(self.body@).len()) + " bytes }"@,
    {
        let n = self.body.as_str().as_bytes().len();
        let mut t = concat("HostedHttpResponse { status: ", u64_decimal(self.status as u64).as_str());
        t.append(", body: ");
        t.append(u64_decimal(n as u64).as_str());
        t.append(" bytes }");
        t
    }
}

/// `url::ParseError`.
#[verifier::external_type_specification]
#[verifier::external_body]
pub struct ExUrlParseError(url::ParseError);

/// Why a hosted request cannot be made or failed.
#[derive(Debug)]
pub enum HostedHttpError {
    InvalidUrl(url::ParseError),
    Transport { message: String },
    BlockingHttpInsideAsyncRuntime,
    AsyncRuntimeUnavailable { message: String },
    TransportDecode { message: String },
    UnsupportedUrlScheme { scheme: String },
    PrivateNetworkUrl { host: String },
    InvalidHeaderName { name: String, message: String },
    InvalidHeaderValue { name: String, message: String },
}

// ---------------------------------------------------------------------
// Headers.
// ---------------------------------------------------------------------

/// A header whose value is a credential: authorization headers, and any
/// name holding "token", "secret" or "api-key", in any ASCII case.
pub open spec fn sensitive_name(name: Seq<char>) -> bool {
    let n = lower(name);
    ||| n == "authorization"@
    ||| n == "proxy-authorization"@
    ||| contains(n, "token"@)
    ||| contains(n, "secret"@)
    ||| contains(n, "api-key"@)
}

/// Whether a header carries a secret, by its name.
pub fn sensitive_header_name(name: &str) -> (b: bool)
    ensures
        b == sensitive_name(name@),
{
    let n = ascii_lowercase(name);
    str_eq(n.as_str(), "authorization") || str_eq(n.as_str(), "proxy-authorization") || contains_str(
        n.as_str(),
        "token",
    ) || contains_str(n.as_str(), "secret") || contains_str(n.as_str(), "api-key")
}

/// An HTTP token character (RFC 9110): ASCII letters and digits and
/// ``!#$%&'*+-.^_`|~``.
pub open spec fn is_token_char(c: char) -> bool {
    ||| ('a' <= c && c <= 'z')
    ||| ('A' <= c && c <= 'Z')
    ||| ('0' <= c && c <= '9')
    ||| c == '!' || c == '#' || c == '$' || c == '%' || c == '&' || c == '\u{27}' || c == '*'
    ||| c == '+' || c == '-' || c == '.' || c == '^' || c == '_' || c == '`' || c == '|' || c == '~'
}

fn is_token_char_exec(c: char) -> (b: bool)
    ensures
        b == is_token_char(c),
{
    ('a' <= c && c <= 'z') || ('A' <= c && c <= 'Z') || ('0' <= c && c <= '9') || c == '!' || c == '#'
        || c == '$' || c == '%' || c == '&' || c == '\u{27}' || c == '*' || c == '+' || c == '-' || c == '.'
        || c == '^' || c == '_' || c == '`' || c == '|' || c == '~'
}

pub open spec fn header_ok(name: Seq<char>, value: Seq<char>) -> Result<(), u8> {
    let t = trim(name);
    if t.len() == 0 || !(forall|i: int| 0 <= i < t.len() ==> is_token_char(#[trigger] t[i])) {
        Err(0)
    } else if contains(value, "\r"@) || contains(value, "\n"@) {
        Err(1)
    } else {
        Ok(())
    }
}

/// The trimmed name is a non-empty HTTP token, and the
/// value holds no line break.
pub fn validate_header(header: &HostedHttpHeader) -> (r: Result<(), HostedHttpError>)
    ensures
        match header_ok(header.name@, header.value@) {
            Ok(()) => r is Ok,
            Err(0) => r matches Err(HostedHttpError::InvalidHeaderName { name, message }) && name@ == header.name@
                && message@ == "header names must be HTTP token characters"@,
            Err(_) => r matches Err(HostedHttpError::InvalidHeaderValue { name, message }) && name@ == header.name@
                && message@ == "header values must not contain line breaks"@,
        },
{
    let t = trim_str(header.name.as_str());
    let cs = crate::text::chars_of(t.as_str());
    let mut all_token = cs.len() > 0;
    let mut i: usize = 0;
    while i < cs.len()
        invariant
            i <= cs@.len(),
            cs@ == t@,
            all_token == (cs@.len() > 0 && forall|j: int| 0 <= j < i ==> is_token_char(#[trigger] cs@[j])),
        decreases cs@.len() - i,
    {
        if !is_token_char_exec(cs[i]) {
            all_token = false;
        }
        i += 1;
    }
    if !all_token {
        return Err(
            HostedHttpError::InvalidHeaderName {
                name: header.name.clone(),
                message: "header names must be HTTP token characters".to_owned(),
            },
        );
    }
    if contains_str(header.value.as_str(), "\r") || contains_str(header.value.as_str(), "\n") {
        return Err(
            HostedHttpError::InvalidHeaderValue {
                name: header.name.clone(),
                message: "header values must not contain line breaks".to_owned(),
            },
        );
    }
    Ok(())
}

// ---------------------------------------------------------------------
// URLs and hosts.
// ---------------------------------------------------------------------

/// What the `url` crate reads from a URL: its scheme, its host as
/// `Url::host_str` serialises it, and, for an IP address host, the
/// address's groups (four octets for IPv4, eight segments for IPv6). `None`
/// where the text does not parse as a URL.
pub uninterp spec fn url_parts(input: Seq<char>) -> Option<(Seq<char>, Option<Seq<char>>, Option<Seq<u16>>)>;

/// The parts of a URL the host check reads.
#[derive(Clone, Debug, PartialEq)]
pub struct ParsedUrl {
    pub scheme: String,
    pub host: Option<String>,
    pub ip: Option<Vec<u16>>,
}

/// `url::Url::parse`, read for `Url::scheme`, `Url::host_str` and the
/// address inside `Url::host` where it is an IPv4 or IPv6 host. The crate
/// documents that `host_str` serialises such an address, so reading the
/// address from the parsed host equals parsing `host_str` back.
#[verifier::external_body]
fn parse_url(value: &str) -> (r: Result<ParsedUrl, url::ParseError>)
    ensures
        match r {
            Ok(u) => url_parts(value@) == Some(
                (
                    u.scheme@,
                    opt_str(u.host),
                    match u.ip {
                        Some(g) => Some(g@),
                        None => None,
                    },
                ),
            ) && (u.ip matches Some(g) ==> (g@.len() == 4 && forall|i: int| 0 <= i < 4 ==> g@[i] < 256)
                || g@.len() == 8),
            Err(_) => url_parts(value@) is None,
        },
{
    let url = url::Url::parse(value)?;
    let ip = match url.host() {
        Some(url::Host::Ipv4(a)) => {
            let o = a.octets();
            Some(vec![o[0] as u16, o[1] as u16, o[2] as u16, o[3] as u16])
        },
        Some(url::Host::Ipv6(a)) => Some(a.segments().to_vec()),
        _ => None,
    };
    let host = match url.host_str() {
        Some(h) => Some(h.to_owned()),
        None => None,
    };
    Ok(ParsedUrl { scheme: url.scheme().to_owned(), host, ip })
}

/// Ipv4 addresses that are not publicly routable: private, loopback,
/// link-local (the cloud metadata address among them), broadcast,
/// documentation, unspecified and multicast ranges, as `Ipv4Addr` defines
/// them.
pub open spec fn private_v4(a: u16, b: u16, c: u16, d: u16) -> bool {
    ||| a == 10
    ||| (a == 172 && 16 <= b && b <= 31)
    ||| (a == 192 && b == 168)
    ||| a == 127
    ||| (a == 169 && b == 254)
    ||| (a == 255 && b == 255 && c == 255 && d == 255)
    ||| (a == 192 && b == 0 && c == 2)
    ||| (a == 198 && b == 51 && c == 100)
    ||| (a == 203 && b == 0 && c == 113)
    ||| (a == 0 && b == 0 && c == 0 && d == 0)
    ||| (224 <= a && a <= 239)
}

/// Ipv6 addresses that are not publicly routable: mapped private Ipv4,
/// loopback, unspecified, multicast, unique local, unicast link-local and
/// documentation addresses.
pub open spec fn private_v6(s: Seq<u16>) -> bool {
    let zero_head = s[0] == 0 && s[1] == 0 && s[2] == 0 && s[3] == 0 && s[4] == 0;
    ||| (zero_head && s[5] == 0xffff && private_v4(s[6] / 256, s[6] % 256, s[7] / 256, s[7] % 256))
    ||| (zero_head && s[5] == 0 && s[6] == 0 && s[7] == 1)
    ||| (zero_head && s[5] == 0 && s[6] == 0 && s[7] == 0)
    ||| s[0] >= 0xff00
    ||| (0xfc00 <= s[0] && s[0] <= 0xfdff)
    ||| (0xfe80 <= s[0] && s[0] <= 0xfebf)
    ||| (s[0] == 0x2001 && s[1] == 0x0db8)
}

pub open spec fn private_ip(g: Seq<u16>) -> bool {
    if g.len() == 4 {
        private_v4(g[0], g[1], g[2], g[3])
    } else {
        g.len() == 8 && private_v6(g)
    }
}

fn private_v4_exec(a: u16, b: u16, c: u16, d: u16) -> (r: bool)
    ensures
        r == private_v4(a, b, c, d),
{
    a == 10 || (a == 172 && 16 <= b && b <= 31) || (a == 192 && b == 168) || a == 127 || (a == 169 && b
        == 254) || (a == 255 && b == 255 && c == 255 && d == 255) || (a == 192 && b == 0 && c == 2) || (a
        == 198 && b == 51 && c == 100) || (a == 203 && b == 0 && c == 113) || (a == 0 && b == 0 && c == 0
        && d == 0) || (224 <= a && a <= 239)
}

/// Whether an IP address, given by its groups, is not publicly routable.
pub fn is_private_network_ip(g: &Vec<u16>) -> (r: bool)
    ensures
        r == private_ip(g@),
{
    if g.len() == 4 {
        return private_v4_exec(g[0], g[1], g[2], g[3]);
    }
    if g.len() != 8 {
        return false;
    }
    let zero_head = g[0] == 0 && g[1] == 0 && g[2] == 0 && g[3] == 0 && g[4] == 0;
    (zero_head && g[5] == 0xffff && private_v4_exec(g[6] / 256, g[6] % 256, g[7] / 256, g[7] % 256))
        || (zero_head && g[5] == 0 && g[6] == 0 && g[7] == 1) || (zero_head && g[5] == 0 && g[6] == 0
        && g[7] == 0) || g[0] >= 0xff00 || (0xfc00 <= g[0] && g[0] <= 0xfdff) || (0xfe80 <= g[0] && g[0]
        <= 0xfebf) || (g[0] == 0x2001 && g[1] == 0x0db8)
}

/// The host without trailing dots.
pub open spec fn trim_end_dots(h: Seq<char>) -> Seq<char>
    decreases h.len(),
{
    if h.len() > 0 && h.last() == '.' {
        trim_end_dots(h.drop_last())
    } else {
        h
    }
}

/// A name that always points inside the host: `localhost`, a subdomain of
/// it, or the cloud metadata service.
pub open spec fn local_name(normalized: Seq<char>) -> bool {
    ||| normalized == "localhost"@
    ||| crate::text::ends_with(normalized, ".localhost"@)
    ||| normalized == "metadata.google.internal"@
}

/// A decimal digit.
pub open spec fn is_digit(c: char) -> bool {
    '0' <= c && c <= '9'
}

/// The value of a decimal digit.
pub open spec fn digit_value(c: char) -> nat {
    ((c as u32) - ('0' as u32)) as nat
}

/// The value of a string of decimal digits.
pub open spec fn digits_value(p: Seq<char>) -> nat
    decreases p.len(),
{
    if p.len() == 0 {
        0
    } else {
        digits_value(p.drop_last()) * 10 + digit_value(p.last())
    }
}

/// An octet of a dotted-decimal IPv4 address: one to three decimal digits,
/// no leading zero, at most 255.
pub open spec fn octet_text(p: Seq<char>) -> bool {
    &&& 1 <= p.len() <= 3
    &&& forall|i: int| 0 <= i < p.len() ==> is_digit(#[trigger] p[i])
    &&& (p.len() == 1 || p[0] != '0')
    &&& digits_value(p) <= 255
}

/// The pieces of `s` between dots, in order (one piece for a text with no
/// dot).
pub open spec fn dot_pieces(s: Seq<char>) -> Seq<Seq<char>>
    decreases s.len(),
{
    if s.len() == 0 {
        seq![Seq::empty()]
    } else if s.last() == '.' {
        dot_pieces(s.drop_last()).push(Seq::empty())
    } else {
        let p = dot_pieces(s.drop_last());
        p.update(p.len() - 1, p.last().push(s.last()))
    }
}

/// The IPv4 address a text writes in dotted-decimal form, as an IPv4
/// address literal is read: exactly four octets separated by dots; `None`
/// for any other text.
pub open spec fn ipv4_literal(t: Seq<char>) -> Option<Seq<u16>> {
    let ps = dot_pieces(t);
    if ps.len() == 4 && forall|i: int| 0 <= i < 4 ==> octet_text(#[trigger] ps[i]) {
        Some(Seq::new(4, |i: int| digits_value(ps[i]) as u16))
    } else {
        None
    }
}

/// The address a host names: the one the `url` crate read, or else the
/// IPv4 literal the host text without trailing dots writes. A host that
/// the `url` crate did not read as an address is a domain or opaque name,
/// in which `url` refuses `:`, so no IPv6 literal can stand in one.
pub open spec fn host_address(h: Seq<char>, ip: Option<Seq<u16>>) -> Option<Seq<u16>> {
    match ip {
        Some(g) => Some(g),
        None => ipv4_literal(lower(trim_end_dots(h))),
    }
}

/// Whether the parsed URL's host is publicly routable: it has a host, the
/// host is no local name, and it names no private address.
pub open spec fn public_host(host: Option<Seq<char>>, ip: Option<Seq<u16>>) -> bool {
    match host {
        None => false,
        Some(h) => !local_name(lower(trim_end_dots(h))) && !(host_address(h, ip) matches Some(g) && private_ip(g)),
    }
}

fn dot_pieces_exec(cs: &Vec<char>) -> (r: Vec<Vec<char>>)
    ensures
        r@.len() == dot_pieces(cs@).len(),
        forall|i: int| 0 <= i < r@.len() ==> (#[trigger] r@[i])@ == dot_pieces(cs@)[i],
{
    let mut parts: Vec<Vec<char>> = Vec::new();
    parts.push(Vec::new());
    let mut i: usize = 0;
    proof {
        assert(cs@.take(0) =~= Seq::<char>::empty());
        assert(dot_pieces(Seq::<char>::empty()) =~= seq![Seq::<char>::empty()]);
    }
    while i < cs.len()
        invariant
            i <= cs@.len(),
            parts@.len() >= 1,
            parts@.len() == dot_pieces(cs@.take(i as int)).len(),
            forall|j: int| 0 <= j < parts@.len() ==> (#[trigger] parts@[j])@ == dot_pieces(cs@.take(i as int))[j],
        decreases cs@.len() - i,
    {
        let ghost before = cs@.take(i as int);
        let ghost prev = parts@;
        proof {
            assert(cs@.take(i + 1).drop_last() =~= before);
            assert(cs@.take(i + 1).last() == cs@[i as int]);
        }
        if cs[i] == '.' {
            parts.push(Vec::new());
            proof {
                let sp = dot_pieces(cs@.take(i + 1));
                assert(sp == dot_pieces(before).push(Seq::empty()));
                assert forall|j: int| 0 <= j < parts@.len() implies (#[trigger] parts@[j])@ == sp[j] by {
                    if j < prev.len() {
                        assert(parts@[j] == prev[j]);
                    } else {
                        assert(parts@[j]@ =~= Seq::<char>::empty());
                    }
                }
            }
        } else {
            let mut last = parts.pop().unwrap();
            let ghost last_before = last@;
            last.push(cs[i]);
            parts.push(last);
            proof {
                let dp = dot_pieces(before);
                let sp = dot_pieces(cs@.take(i + 1));
                assert(sp == dp.update(dp.len() - 1, dp.last().push(cs@[i as int])));
                assert(last_before == dp[dp.len() - 1]);
                assert forall|j: int| 0 <= j < parts@.len() implies (#[trigger] parts@[j])@ == sp[j] by {
                    if j < prev.len() - 1 {
                        assert(parts@[j] == prev[j]);
                    }
                }
            }
        }
        i += 1;
    }
    proof {
        assert(cs@.take(cs@.len() as int) =~= cs@);
    }
    parts
}

fn trim_end_dots_exec(h: &str) -> (r: String)
    ensures
        r@ == trim_end_dots(h@),
{
    let cs = crate::text::chars_of(h);
    let mut end: usize = cs.len();
    proof {
        assert(cs@.take(end as int) =~= h@);
    }
    while end > 0 && cs[end - 1] == '.'
        invariant
            end <= cs@.len(),
            cs@ == h@,
            trim_end_dots(h@) == trim_end_dots(cs@.take(end as int)),
        decreases end,
    {
        proof {
            assert(cs@.take(end as int).drop_last() =~= cs@.take(end - 1));
        }
        end -= 1;
    }
    let mut out: Vec<char> = Vec::new();
    let mut i: usize = 0;
    while i < end
        invariant
            i <= end <= cs@.len(),
            out@ == cs@.take(i as int),
        decreases end - i,
    {
        out.push(cs[i]);
        i += 1;
        proof {
            assert(out@ =~= cs@.take(i as int));
        }
    }
    crate::text::string_from_chars(out.as_slice())
}

fn octet_of(p: &Vec<char>) -> (r: Option<u16>)
    ensures
        match r {
            Some(v) => octet_text(p@) && v == digits_value(p@),
            None => !octet_text(p@),
        },
{
    if p.len() < 1 || p.len() > 3 {
        return None;
    }
    if p.len() > 1 && p[0] == '0' {
        return None;
    }
    let mut v: u32 = 0;
    let mut i: usize = 0;
    proof {
        assert(p@.take(0) =~= Seq::<char>::empty());
    }
    while i < p.len()
        invariant
            i <= p@.len() <= 3,
            v == digits_value(p@.take(i as int)),
            i == 0 ==> v == 0,
            i == 1 ==> v < 10,
            i == 2 ==> v < 100,
            i == 3 ==> v < 1000,
            forall|k: int| 0 <= k < i ==> is_digit(#[trigger] p@[k]),
        decreases p@.len() - i,
    {
        let c = p[i];
        if !('0' <= c && c <= '9') {
            return None;
        }
        proof {
            assert(p@.take(i + 1).drop_last() =~= p@.take(i as int));
            assert(p@.take(i + 1).last() == c);
        }
        v = v * 10 + ((c as u32) - ('0' as u32));
        i += 1;
    }
    proof {
        assert(p@.take(p@.len() as int) =~= p@);
    }
    if v > 255 {
        return None;
    }
    Some(v as u16)
}

/// The IPv4 address a text writes in dotted-decimal form, if it writes one.
pub fn ipv4_literal_exec(t: &str) -> (r: Option<Vec<u16>>)
    ensures
        match r {
            Some(g) => ipv4_literal(t@) == Some(g@),
            None => ipv4_literal(t@) is None,
        },
{
    let cs = crate::text::chars_of(t);
    let pieces = dot_pieces_exec(&cs);
    if pieces.len() != 4 {
        return None;
    }
    let mut g: Vec<u16> = Vec::new();
    let mut i: usize = 0;
    while i < 4
        invariant
            i <= 4,
            pieces@.len() == 4,
            cs@ == t@,
            dot_pieces(t@).len() == 4,
            forall|j: int| 0 <= j < 4 ==> (#[trigger] pieces@[j])@ == dot_pieces(t@)[j],
            g@.len() == i,
            forall|j: int| 0 <= j < i ==> octet_text(#[trigger] dot_pieces(t@)[j]) && g@[j] == digits_value(dot_pieces(t@)[j]),
        decreases 4 - i,
    {
        match octet_of(&pieces[i]) {
            Some(v) => {
                g.push(v);
            },
            None => {
                proof {
                    assert(!octet_text(dot_pieces(t@)[i as int]));
                }
                return None;
            },
        }
        i += 1;
    }
    proof {
        assert(g@ =~= Seq::new(4, |j: int| digits_value(dot_pieces(t@)[j]) as u16));
    }
    Some(g)
}

/// Unless private networks are allowed, the host
/// must exist and be publicly routable.
pub fn validate_public_host(url: &ParsedUrl, allow_private_networks: bool) -> (r: Result<(), HostedHttpError>)
    ensures
        allow_private_networks ==> r is Ok,
        !allow_private_networks ==> match url.host {
            None => r matches Err(HostedHttpError::PrivateNetworkUrl { host }) && host@ == "<missing>"@,
            Some(h) => if public_host(Some(h@), match url.ip {
                Some(g) => Some(g@),
                None => None,
            }) {
                r is Ok
            } else {
                r matches Err(HostedHttpError::PrivateNetworkUrl { host }) && host@ == h@
            },
        },
{
    if allow_private_networks {
        return Ok(());
    }
    let host = match &url.host {
        None => return Err(HostedHttpError::PrivateNetworkUrl { host: "<missing>".to_owned() }),
        Some(h) => h,
    };
    let trimmed = trim_end_dots_exec(host.as_str());
    let normalized = ascii_lowercase(trimmed.as_str());
    if str_eq(normalized.as_str(), "localhost") || crate::text::ends_with_str(normalized.as_str(), ".localhost")
        || str_eq(normalized.as_str(), "metadata.google.internal") {
        return Err(HostedHttpError::PrivateNetworkUrl { host: host.clone() });
    }
    match &url.ip {
        Some(g) => {
            if is_private_network_ip(g) {
                return Err(HostedHttpError::PrivateNetworkUrl { host: host.clone() });
            }
        },
        None => match ipv4_literal_exec(normalized.as_str()) {
            Some(g) => {
                if is_private_network_ip(&g) {
                    return Err(HostedHttpError::PrivateNetworkUrl { host: host.clone() });
                }
            },
            None => {},
        },
    }
    Ok(())
}

/// The ruling on a URL for a hosted request.
pub open spec fn url_ruling(value: Seq<char>, allow_private: bool) -> Result<(), u8> {
    match url_parts(value) {
        None => Err(0),
        Some((scheme, host, ip)) => if scheme != "http"@ && scheme != "https"@ {
            Err(1)
        } else if allow_private || public_host(host, ip) {
            Ok(())
        } else {
            Err(2)
        },
    }
}

/// `e` is the refusal of `value` that the ruling `code` calls for: an
/// unparsable URL, a scheme other than http(s) (named), or a host that is
/// missing or not public (named, `<missing>` when there is none).
pub open spec fn url_refusal(e: HostedHttpError, value: Seq<char>, code: u8) -> bool {
    if code == 0 {
        e is InvalidUrl
    } else if code == 1 {
        e matches HostedHttpError::UnsupportedUrlScheme { scheme } && Some(scheme@) == (match url_parts(value) {
            Some(p) => Some(p.0),
            None => None,
        })
    } else {
        e matches HostedHttpError::PrivateNetworkUrl { host } && host@ == (match url_parts(value) {
            Some(p) => match p.1 {
                Some(h) => h,
                None => "<missing>"@,
            },
            None => Seq::empty(),
        })
    }
}

/// The text parses as a URL, its scheme is http or
/// https, and its host is public (unless private networks are allowed).
pub fn validate_http_url(value: &str, allow_private_networks: bool) -> (r: Result<(), HostedHttpError>)
    ensures
        match url_ruling(value@, allow_private_networks) {
            Ok(()) => r is Ok,
            Err(code) => r matches Err(e) && url_refusal(e, value@, code),
        },
{
    proof {
        reveal_strlit("<missing>");
    }
    let url = match parse_url(value) {
        Ok(u) => u,
        Err(e) => return Err(HostedHttpError::InvalidUrl(e)),
    };
    if !str_eq(url.scheme.as_str(), "http") && !str_eq(url.scheme.as_str(), "https") {
        return Err(HostedHttpError::UnsupportedUrlScheme { scheme: url.scheme.clone() });
    }
    validate_public_host(&url, allow_private_networks)
}

// ---------------------------------------------------------------------
// The client.
// ---------------------------------------------------------------------

/// What carries a request to the hosted service and brings back its
/// answer.
pub trait HostedTransport {
    /// Whether `result` is an answer this transport brings back for
    /// `request`. A transport that says nothing more leaves every answer
    /// possible.
    open spec fn carries(&self, request: HostedHttpRequest, result: Result<HostedHttpResponse, HostedHttpError>) -> bool {
        true
    }

    fn send(&self, request: HostedHttpRequest) -> (r: Result<HostedHttpResponse, HostedHttpError>)
        ensures
            self.carries(request, r),
    ;
}

/// The value without one trailing `/`.
pub open spec fn strip_one_slash(v: Seq<char>) -> Seq<char> {
    if v.len() > 0 && v.last() == '/' {
        v.drop_last()
    } else {
        v
    }
}

/// The value without one trailing `/`.
pub fn strip_one_trailing_slash(value: &str) -> (r: String)
    ensures
        r@ == strip_one_slash(value@),
{
    let cs = crate::text::chars_of(value);
    let n = cs.len();
    let end = if n > 0 && cs[n - 1] == '/' {
        n - 1
    } else {
        n
    };
    let mut out: Vec<char> = Vec::new();
    let mut i: usize = 0;
    while i < end
        invariant
            i <= end <= n,
            n == cs@.len(),
            out@ == cs@.take(i as int),
        decreases end - i,
    {
        out.push(cs[i]);
        i += 1;
        proof {
            assert(out@ =~= cs@.take(i as int));
        }
    }
    proof {
        assert(out@ =~= strip_one_slash(value@));
    }
    crate::text::string_from_chars(out.as_slice())
}

/// The route without its leading slashes.
pub open spec fn trim_leading_slashes(r: Seq<char>) -> Seq<char>
    decreases r.len(),
{
    if r.len() > 0 && r[0] == '/' {
        trim_leading_slashes(r.drop_first())
    } else {
        r
    }
}

fn trim_leading_slashes_exec(route: &str) -> (r: String)
    ensures
        r@ == trim_leading_slashes(route@),
{
    let cs = crate::text::chars_of(route);
    let n = cs.len();
    let mut start: usize = 0;
    proof {
        assert(cs@.skip(0) =~= route@);
    }
    while start < n && cs[start] == '/'
        invariant
            start <= n,
            n == cs@.len(),
            cs@ == route@,
            trim_leading_slashes(route@) == trim_leading_slashes(cs@.skip(start as int)),
        decreases n - start,
    {
        proof {
            assert(cs@.skip(start as int).drop_first() =~= cs@.skip(start + 1));
        }
        start += 1;
    }
    let mut out: Vec<char> = Vec::new();
    let mut i: usize = start;
    while i < n
        invariant
            start <= i <= n,
            n == cs@.len(),
            out@ == cs@.subrange(start as int, i as int),
        decreases n - i,
    {
        out.push(cs[i]);
        i += 1;
    }
    proof {
        assert(out@ =~= cs@.skip(start as int));
    }
    crate::text::string_from_chars(out.as_slice())
}

/// A client bound to one hosted base URL.
pub struct HostedHttpClient<T> {
    pub base_url: String,
    pub transport: T,
}

impl<T: HostedTransport> HostedHttpClient<T> {
    /// A client for the base URL without one trailing slash, which must be
    /// a public http(s) URL; any other is refused with the URL check's
    /// error.
    pub fn with_transport(base_url: &str, transport: T) -> (r: Result<Self, HostedHttpError>)
        ensures
            match url_ruling(strip_one_slash(base_url@), false) {
                Ok(()) => r matches Ok(c) && c.base_url@ == strip_one_slash(base_url@) && c.transport == transport,
                Err(code) => r matches Err(e) && url_refusal(e, strip_one_slash(base_url@), code),
            },
    {
        let base = strip_one_trailing_slash(base_url);
        match validate_http_url(base.as_str(), false) {
            Ok(()) => Ok(HostedHttpClient { base_url: base, transport }),
            Err(e) => Err(e),
        }
    }

    /// The base URL, a slash, and the route without its leading slashes;
    /// it must pass the same URL check.
    pub fn route_url(&self, route: &str) -> (r: Result<String, HostedHttpError>)
        ensures
            match url_ruling(self.base_url@ + "/"@ + trim_leading_slashes(route@), false) {
                Ok(()) => r matches Ok(u) && u@ == self.base_url@ + "/"@ + trim_leading_slashes(route@),
                Err(code) => r matches Err(e) && url_refusal(e, self.base_url@ + "/"@ + trim_leading_slashes(route@), code),
            },
    {
        let normalized = trim_leading_slashes_exec(route);
        let url = concat3(self.base_url.as_str(), "/", normalized.as_str());
        match validate_http_url(url.as_str(), false) {
            Ok(()) => Ok(url),
            Err(e) => Err(e),
        }
    }

    /// A request to the route, with no headers and no body.
    pub fn request(&self, method: HttpMethod, route: &str) -> (r: Result<HostedHttpRequest, HostedHttpError>)
        ensures
            match url_ruling(self.base_url@ + "/"@ + trim_leading_slashes(route@), false) {
                Ok(()) => r matches Ok(q) && q.method == method && q.url@ == self.base_url@ + "/"@
                    + trim_leading_slashes(route@) && q.headers@.len() == 0 && q.body is None,
                Err(code) => r matches Err(e) && url_refusal(e, self.base_url@ + "/"@ + trim_leading_slashes(route@), code),
            },
    {
        let url = self.route_url(route)?;
        Ok(HostedHttpRequest { method, url, headers: Vec::new(), body: None })
    }

    /// Hands the request, unchanged, to the transport and gives back its
    /// answer.
    pub fn send(&self, request: HostedHttpRequest) -> (r: Result<HostedHttpResponse, HostedHttpError>)
        ensures
            self.transport.carries(request, r),
    {
        self.transport.send(request)
    }
}

impl HostedHttpError {
    /// The error's message; a URL parse error is described by the
    /// caller's text for it.
    pub fn message(&self, url_error_text: &str) -> (r: String)
        ensures
            r@ == (match self {
                HostedHttpError::InvalidUrl(_) => "invalid hosted HTTP url: "@ + url_error_text@,
                HostedHttpError::Transport { message } => "hosted HTTP transport failed: "@ + message@,
                HostedHttpError::BlockingHttpInsideAsyncRuntime =>
                    "hosted HTTP transport cannot block inside an active async runtime"@,
                HostedHttpError::AsyncRuntimeUnavailable { message } =>
                    "hosted HTTP async runtime is unavailable: "@ + message@,
                HostedHttpError::TransportDecode { message } =>
                    "hosted HTTP transport returned invalid output: "@ + message@,
                HostedHttpError::UnsupportedUrlScheme { scheme } => "unsupported hosted HTTP url scheme \u{27}"@
                    + scheme@ + "\u{27}: only http and https are allowed"@,
                HostedHttpError::PrivateNetworkUrl { host } => "hosted HTTP url host \u{27}"@ + host@
                    + "\u{27} is not publicly routable"@,
                HostedHttpError::InvalidHeaderName { name, message } => "invalid hosted HTTP header name \u{27}"@
                    + name@ + "\u{27}: "@ + message@,
                HostedHttpError::InvalidHeaderValue { name, message } =>
                    "invalid hosted HTTP header value for \u{27}"@ + name@ + "\u{27}: "@ + message@,
            }),
    {
        match self {
            HostedHttpError::InvalidUrl(_) => concat("invalid hosted HTTP url: ", url_error_text),
            HostedHttpError::Transport { message } => concat("hosted HTTP transport failed: ", message.as_str()),
            HostedHttpError::BlockingHttpInsideAsyncRuntime =>
                "hosted HTTP transport cannot block inside an active async runtime".to_owned(),
            HostedHttpError::AsyncRuntimeUnavailable { message } =>
                concat("hosted HTTP async runtime is unavailable: ", message.as_str()),
            HostedHttpError::TransportDecode { message } =>
                concat("hosted HTTP transport returned invalid output: ", message.as_str()),
            HostedHttpError::UnsupportedUrlScheme { scheme } => concat3(
                "unsupported hosted HTTP url scheme \u{27}",
                scheme.as_str(),
                "\u{27}: only http and https are allowed",
            ),
            HostedHttpError::PrivateNetworkUrl { host } => concat3(
                "hosted HTTP url host \u{27}",
                host.as_str(),
                "\u{27} is not publicly routable",
            ),
            HostedHttpError::InvalidHeaderName { name, message } => {
                let mut m = concat3("invalid hosted HTTP header name \u{27}", name.as_str(), "\u{27}: ");
                m.append(message.as_str());
                m
            },
            HostedHttpError::InvalidHeaderValue { name, message } => {
                let mut m = concat3("invalid hosted HTTP header value for \u{27}", name.as_str(), "\u{27}: ");
                m.append(message.as_str());
                m
            },
        }
    }
}

} // verus!
