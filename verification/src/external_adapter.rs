//! Running a skill through an external adapter process: the contract
//! checks on both sides of the call, the process environment, the
//! captured output and the skill output built from the response.
use vstd::prelude::*;
use crate::adapter::{InvocationStatus, RuntimeError, SkillInvocation, SkillOutput};
use crate::contracts::external_adapter::{
    EXTERNAL_ADAPTER_PROTOCOL_VERSION, ExternalAdapterCancellationFrame, ExternalAdapterInvocation,
    ExternalAdapterManifest, ExternalAdapterResponse, ExternalAdapterStatus,
    ExternalAdapterTransportKind,
};
use crate::json::{JsonData, JsonNumber, JsonObject, JsonValue, NumberData, copy_json, entries_data, key_sorted, overlay,
    lemma_entries_data, lookup, opt_data, spec_insert};
use crate::json_text::{json_text, render_json};
use crate::reference::{Reference, ReferenceType, ReferenceView, opt_str};
use crate::registry::{env_find, env_get};
use crate::skill::types::{SkillSource, SourceKind, source_kind_name};
use crate::text::{chars_of, concat, concat3, in_set, is_ascii_alnum, is_ascii_alnum_exec, is_blank,
    starts_with, str_eq, string_from_chars, trim, trim_by, trim_chars, u64_decimal, ends_with_str,
    decimal, i64_decimal, signed_decimal,
    starts_with_str};

verus! {

pub const INVOCATION_SCHEMA: &'static str = "runx.external_adapter.invocation.v1";
pub const MANIFEST_SCHEMA: &'static str = "runx.external_adapter.manifest.v1";
pub const RESPONSE_SCHEMA: &'static str = "runx.external_adapter.response.v1";
pub const CREDENTIAL_REQUEST_SCHEMA: &'static str = "runx.external_adapter.credential_request.v1";
pub const CANCELLATION_SCHEMA: &'static str = "runx.external_adapter.cancellation.v1";

/// The most bytes of adapter output the runtime keeps.
pub const RESPONSE_LIMIT_BYTES: usize = 1048576;

/// Why a supervised adapter call failed. The I/O and JSON failures carry
/// the text of the underlying error.
#[derive(Clone, Debug, PartialEq)]
pub enum ExternalAdapterSupervisorError {
    UnsupportedManifestProtocol { actual: String },
    UnsupportedInvocationProtocol { actual: String },
    UnsupportedResponseProtocol { actual: String },
    UnsupportedManifestSchema { actual: String },
    UnsupportedInvocationSchema { actual: String },
    UnsupportedResponseSchema { actual: String },
    UnsupportedTransport { kind: ExternalAdapterTransportKind },
    MissingProcessCommand,
    EmptyProcessCommand,
    AdapterIdMismatch { manifest_adapter_id: String, invocation_adapter_id: String },
    UnsupportedSourceType { adapter_id: String, source_type: String },
    InvalidStartupTimeout,
    InvalidInvocationTimeout,
    InvalidEnvValue { key: String },
    TimedOut { timeout_ms: u64, cancellation: Box<ExternalAdapterCancellationFrame> },
    ProcessFailed { exit_status: String },
    EmptyResponse,
    ResponseTooLarge { limit_bytes: usize },
    UnexpectedCredentialRequest { request_id: String },
    UnsupportedFrameSchema { schema: String },
    ResponseMismatch { field: &'static str, expected: String, actual: String },
    Io { context: String, message: String },
    Json { context: String, message: String },
}

/// Why a skill could not run through its external adapter.
#[derive(Clone, Debug, PartialEq)]
pub enum ExternalAdapterSkillAdapterError {
    MissingInlineManifest,
    InvalidInlineManifestShape,
    InvalidSourceMetadata { field: &'static str },
    ExitCodeOutOfRange { actual: i64 },
    Json { context: String, message: String },
    Supervisor(ExternalAdapterSupervisorError),
}

// ---------------------------------------------------------------------
// The invocation contract.
// ---------------------------------------------------------------------

pub open spec fn source_supported(types: Seq<String>, t: Seq<char>) -> bool {
    exists|i: int| 0 <= i < types.len() && #[trigger] types[i]@ == t
}

/// The first rule the manifest and invocation break, in order: the two
/// schemas, the two protocol versions, the adapter id, the source type,
/// the two timeouts, and the process transport.
pub open spec fn invocation_contract(m: ExternalAdapterManifest, i: ExternalAdapterInvocation) -> Option<nat> {
    if m.schema@ != MANIFEST_SCHEMA@ {
        Some(0)
    } else if i.schema@ != INVOCATION_SCHEMA@ {
        Some(1)
    } else if m.protocol_version@ != EXTERNAL_ADAPTER_PROTOCOL_VERSION@ {
        Some(2)
    } else if i.protocol_version@ != EXTERNAL_ADAPTER_PROTOCOL_VERSION@ {
        Some(3)
    } else if m.adapter_id@ != i.adapter_id@ {
        Some(4)
    } else if !source_supported(m.supported_source_types@, i.source_type@) {
        Some(5)
    } else if m.timeouts.startup_ms == 0 {
        Some(6)
    } else if m.timeouts.invocation_ms == 0 {
        Some(7)
    } else if m.transport.kind != ExternalAdapterTransportKind::Process {
        Some(8)
    } else {
        None
    }
}

pub open spec fn contract_error(m: ExternalAdapterManifest, i: ExternalAdapterInvocation, rule: nat, e: ExternalAdapterSupervisorError) -> bool {
    match e {
        ExternalAdapterSupervisorError::UnsupportedManifestSchema { actual } => rule == 0 && actual@ == m.schema@,
        ExternalAdapterSupervisorError::UnsupportedInvocationSchema { actual } => rule == 1 && actual@ == i.schema@,
        ExternalAdapterSupervisorError::UnsupportedManifestProtocol { actual } => rule == 2 && actual@ == m.protocol_version@,
        ExternalAdapterSupervisorError::UnsupportedInvocationProtocol { actual } => rule == 3 && actual@ == i.protocol_version@,
        ExternalAdapterSupervisorError::AdapterIdMismatch { manifest_adapter_id, invocation_adapter_id } =>
            rule == 4 && manifest_adapter_id@ == m.adapter_id@ && invocation_adapter_id@ == i.adapter_id@,
        ExternalAdapterSupervisorError::UnsupportedSourceType { adapter_id, source_type } =>
            rule == 5 && adapter_id@ == m.adapter_id@ && source_type@ == i.source_type@,
        ExternalAdapterSupervisorError::InvalidStartupTimeout => rule == 6,
        ExternalAdapterSupervisorError::InvalidInvocationTimeout => rule == 7,
        ExternalAdapterSupervisorError::UnsupportedTransport { kind } => rule == 8 && kind == m.transport.kind,
        _ => false,
    }
}

fn source_type_supported(types: &Vec<String>, t: &str) -> (r: bool)
    ensures
        r == source_supported(types@, t@),
{
    let mut i: usize = 0;
    while i < types.len()
        invariant
            i <= types@.len(),
            forall|j: int| 0 <= j < i ==> types@[j]@ != t@,
        decreases types@.len() - i,
    {
        if str_eq(types[i].as_str(), t) {
            return true;
        }
        i += 1;
    }
    false
}

/// Checks that a manifest and an invocation agree on the protocol before
/// any process starts.
pub fn validate_invocation_contract(manifest: &ExternalAdapterManifest, invocation: &ExternalAdapterInvocation) -> (r: Result<(), ExternalAdapterSupervisorError>)
    ensures
        match invocation_contract(*manifest, *invocation) {
            None => r is Ok,
            Some(rule) => r matches Err(e) && contract_error(*manifest, *invocation, rule, e),
        },
{
    if !str_eq(manifest.schema.as_str(), MANIFEST_SCHEMA) {
        return Err(ExternalAdapterSupervisorError::UnsupportedManifestSchema { actual: manifest.schema.clone() });
    }
    if !str_eq(invocation.schema.as_str(), INVOCATION_SCHEMA) {
        return Err(ExternalAdapterSupervisorError::UnsupportedInvocationSchema { actual: invocation.schema.clone() });
    }
    if !str_eq(manifest.protocol_version.as_str(), EXTERNAL_ADAPTER_PROTOCOL_VERSION) {
        return Err(ExternalAdapterSupervisorError::UnsupportedManifestProtocol { actual: manifest.protocol_version.clone() });
    }
    if !str_eq(invocation.protocol_version.as_str(), EXTERNAL_ADAPTER_PROTOCOL_VERSION) {
        return Err(ExternalAdapterSupervisorError::UnsupportedInvocationProtocol { actual: invocation.protocol_version.clone() });
    }
    if !str_eq(manifest.adapter_id.as_str(), invocation.adapter_id.as_str()) {
        return Err(ExternalAdapterSupervisorError::AdapterIdMismatch {
            manifest_adapter_id: manifest.adapter_id.clone(),
            invocation_adapter_id: invocation.adapter_id.clone(),
        });
    }
    if !source_type_supported(&manifest.supported_source_types, invocation.source_type.as_str()) {
        return Err(ExternalAdapterSupervisorError::UnsupportedSourceType {
            adapter_id: manifest.adapter_id.clone(),
            source_type: invocation.source_type.clone(),
        });
    }
    if manifest.timeouts.startup_ms == 0 {
        return Err(ExternalAdapterSupervisorError::InvalidStartupTimeout);
    }
    if manifest.timeouts.invocation_ms == 0 {
        return Err(ExternalAdapterSupervisorError::InvalidInvocationTimeout);
    }
    if manifest.transport.kind != ExternalAdapterTransportKind::Process {
        return Err(ExternalAdapterSupervisorError::UnsupportedTransport { kind: manifest.transport.kind });
    }
    Ok(())
}

/// The command a process transport runs.
pub fn process_command(manifest: &ExternalAdapterManifest) -> (r: Result<&str, ExternalAdapterSupervisorError>)
    ensures
        match manifest.transport.command {
            None => r == Err::<&str, ExternalAdapterSupervisorError>(ExternalAdapterSupervisorError::MissingProcessCommand),
            Some(c) => if trim(c@).len() == 0 {
                r == Err::<&str, ExternalAdapterSupervisorError>(ExternalAdapterSupervisorError::EmptyProcessCommand)
            } else {
                r matches Ok(x) && x@ == c@
            },
        },
{
    let command = match &manifest.transport.command {
        None => return Err(ExternalAdapterSupervisorError::MissingProcessCommand),
        Some(c) => c.as_str(),
    };
    if is_blank(command) {
        return Err(ExternalAdapterSupervisorError::EmptyProcessCommand);
    }
    Ok(command)
}

// ---------------------------------------------------------------------
// The process environment.
// ---------------------------------------------------------------------

/// An environment with `key` bound to `value`: a binding replaced in
/// place, a new one appended.
pub open spec fn env_insert(env: Seq<(Seq<char>, Seq<char>)>, key: Seq<char>, value: Seq<char>) -> Seq<(Seq<char>, Seq<char>)> {
    if exists|i: int| 0 <= i < env.len() && #[trigger] env[i].0 == key {
        let i = choose|i: int| 0 <= i < env.len() && #[trigger] env[i].0 == key;
        env.update(i, (key, value))
    } else {
        env.push((key, value))
    }
}

/// No key is bound twice.
pub open spec fn distinct_keys(env: Seq<(Seq<char>, Seq<char>)>) -> bool {
    forall|i: int, j: int| 0 <= i < j < env.len() ==> #[trigger] env[i].0 != #[trigger] env[j].0
}

pub open spec fn env_view(env: Seq<(String, String)>) -> Seq<(Seq<char>, Seq<char>)> {
    env.map_values(|p: (String, String)| (p.0@, p.1@))
}

/// The scoped environment of an invocation, all string values, and the
/// receipt directory.
pub open spec fn scoped_env(entries: Seq<(Seq<char>, JsonData)>) -> Result<Seq<(Seq<char>, Seq<char>)>, Seq<char>>
    decreases entries.len(),
{
    if entries.len() == 0 {
        Ok(Seq::empty())
    } else {
        match scoped_env(entries.drop_last()) {
            Err(k) => Err(k),
            Ok(env) => match entries.last().1 {
                JsonData::Str(v) => Ok(env_insert(env, entries.last().0, v)),
                _ => Err(entries.last().0),
            },
        }
    }
}

pub open spec fn process_env_spec(scoped: Option<Seq<(Seq<char>, JsonData)>>, receipt_dir: Option<Seq<char>>) -> Result<Seq<(Seq<char>, Seq<char>)>, Seq<char>> {
    match (match scoped {
        Some(e) => scoped_env(key_sorted(e)),
        None => Ok(Seq::empty()),
    }) {
        Err(k) => Err(k),
        Ok(env) => Ok(match receipt_dir {
            Some(d) => env_insert(env, "RUNX_RECEIPT_DIR"@, d),
            None => env,
        }),
    }
}

fn env_set(env: &mut Vec<(String, String)>, key: String, value: String)
    requires
        distinct_keys(env_view(old(env)@)),
    ensures
        env_view(final(env)@) == env_insert(env_view(old(env)@), key@, value@),
        distinct_keys(env_view(final(env)@)),
{
    let ghost before = env_view(env@);
    let mut i: usize = 0;
    while i < env.len()
        invariant
            i <= env@.len(),
            before == env_view(env@),
            before.len() == env@.len(),
            forall|j: int| 0 <= j < i ==> #[trigger] before[j].0 != key@,
            env@ == old(env)@,
            distinct_keys(before),
        decreases env@.len() - i,
    {
        if str_eq(env[i].0.as_str(), key.as_str()) {
            let ghost k = key@;
            let ghost v = value@;
            env.set(i, (key, value));
            proof {
                assert(before[i as int].0 == k);
                let c = choose|c: int| 0 <= c < before.len() && #[trigger] before[c].0 == k;
                assert(env_view(env@) =~= before.update(i as int, (k, v)));
                if c < i {
                    assert(before[c].0 != before[i as int].0);
                } else if c > i {
                    assert(before[i as int].0 != before[c].0);
                }
                let after = env_view(env@);
                assert forall|a: int, b: int| 0 <= a < b < after.len() implies #[trigger] after[a].0 != #[trigger] after[b].0 by {
                    if a != i && b != i {
                        assert(after[a] == before[a] && after[b] == before[b]);
                    } else if a == i {
                        assert(after[b] == before[b]);
                    } else {
                        assert(after[a] == before[a]);
                    }
                }
            }
            return;
        }
        i += 1;
    }
    let ghost k = key@;
    let ghost v = value@;
    env.push((key, value));
    proof {
        assert(env_view(env@) =~= before.push((k, v)));
        assert(!(exists|c: int| 0 <= c < before.len() && #[trigger] before[c].0 == k));
        let after = env_view(env@);
        assert forall|a: int, b: int| 0 <= a < b < after.len() implies #[trigger] after[a].0 != #[trigger] after[b].0 by {
            assert(after[a] == before[a]);
            if b < before.len() {
                assert(after[b] == before[b]);
            }
        }
    }
}

/// The environment an adapter process runs with: the invocation's scoped
/// environment (every value a string, read in name order) and
/// `RUNX_RECEIPT_DIR`.
pub fn process_env(invocation: &ExternalAdapterInvocation) -> (r: Result<Vec<(String, String)>, ExternalAdapterSupervisorError>)
    ensures
        match process_env_spec(match invocation.env {
            Some(o) => Some(o.view()),
            None => None,
        }, crate::reference::opt_str(invocation.receipt_dir)) {
            Ok(env) => r matches Ok(x) && env_view(x@) == env && distinct_keys(env),
            Err(k) => r matches Err(ExternalAdapterSupervisorError::InvalidEnvValue { key }) && key@ == k,
        },
{
    let mut env: Vec<(String, String)> = Vec::new();
    proof {
        assert(env_view(env@) =~= Seq::<(Seq<char>, Seq<char>)>::empty());
    }
    match &invocation.env {
        Some(declared) => {
            let scoped = declared.key_sorted_copy();
            proof {
                lemma_entries_data(scoped.entries@);
            }
            let ghost es = scoped.view();
            let mut i: usize = 0;
            proof {
                assert(es.take(0) =~= Seq::<(Seq<char>, JsonData)>::empty());
            }
            while i < scoped.entries.len()
                invariant
                    i <= scoped.entries@.len(),
                    es == scoped.view(),
                    invocation.env == Some(*declared),
                    es == key_sorted(declared.view()),
                    es.len() == scoped.entries@.len(),
                    forall|j: int| 0 <= j < es.len() ==> #[trigger] es[j] == (scoped.entries@[j].0@, scoped.entries@[j].1.data()),
                    scoped_env(es.take(i as int)) == Ok::<Seq<(Seq<char>, Seq<char>)>, Seq<char>>(env_view(env@)),
                    distinct_keys(env_view(env@)),
                decreases scoped.entries@.len() - i,
            {
                proof {
                    assert(es.take(i + 1).drop_last() =~= es.take(i as int));
                    assert(es.take(i + 1).last() == es[i as int]);
                }
                match &scoped.entries[i].1 {
                    JsonValue::String(v) => {
                        env_set(&mut env, scoped.entries[i].0.clone(), v.clone());
                    },
                    _ => {
                        proof {
                            let k = i + 1;
                            assert(!(es[i as int].1 is Str));
                            assert(scoped_env(es.take(k)) == Err::<Seq<(Seq<char>, Seq<char>)>, Seq<char>>(es[i as int].0));
                            lemma_scoped_env_prefix(es, k);
                        }
                        let key = scoped.entries[i].0.clone();
                        assert(key@ == es[i as int].0);
                        return Err(ExternalAdapterSupervisorError::InvalidEnvValue { key });
                    },
                }
                i += 1;
            }
            proof {
                assert(es.take(es.len() as int) =~= es);
            }
        },
        None => {},
    }
    match &invocation.receipt_dir {
        Some(d) => env_set(&mut env, "RUNX_RECEIPT_DIR".to_owned(), d.clone()),
        None => {},
    }
    Ok(env)
}

proof fn lemma_scoped_env_prefix(es: Seq<(Seq<char>, JsonData)>, k: int)
    requires
        0 <= k <= es.len(),
        scoped_env(es.take(k)) is Err,
    ensures
        scoped_env(es) == scoped_env(es.take(k)),
    decreases es.len() - k,
{
    if k < es.len() {
        assert(es.take(k + 1).drop_last() =~= es.take(k));
        lemma_scoped_env_prefix(es, k + 1);
    } else {
        assert(es.take(k) =~= es);
    }
}

// ---------------------------------------------------------------------
// Captured output and the response frame.
// ---------------------------------------------------------------------

/// Output captured from an adapter process: at most the limit, and
/// whether more was written.
#[derive(Clone, Debug, PartialEq)]
pub struct CapturedOutput {
    pub bytes: Vec<u8>,
    pub truncated: bool,
}

impl CapturedOutput {
    pub fn new() -> (r: Self)
        ensures
            r.bytes@.len() == 0,
            !r.truncated,
    {
        CapturedOutput { bytes: Vec::new(), truncated: false }
    }

    /// Takes in one chunk read from the process.
    pub fn take_chunk(&mut self, chunk: &[u8])
        requires
            old(self).bytes@.len() <= RESPONSE_LIMIT_BYTES,
        ensures
            final(self).bytes@ == (old(self).bytes@ + chunk@).take(
                if old(self).bytes@.len() + chunk@.len() <= RESPONSE_LIMIT_BYTES {
                    (old(self).bytes@.len() + chunk@.len()) as int
                } else {
                    RESPONSE_LIMIT_BYTES as int
                },
            ),
            final(self).truncated == (old(self).truncated || old(self).bytes@.len() + chunk@.len() > RESPONSE_LIMIT_BYTES),
            final(self).bytes@.len() <= RESPONSE_LIMIT_BYTES,
    {
        let remaining = RESPONSE_LIMIT_BYTES - self.bytes.len();
        let take = if chunk.len() < remaining { chunk.len() } else { remaining };
        let ghost before = self.bytes@;
        let mut i: usize = 0;
        while i < take
            invariant
                i <= take <= chunk@.len(),
                take <= remaining,
                remaining == RESPONSE_LIMIT_BYTES - before.len(),
                self.bytes@ == before + chunk@.take(i as int),
                self.truncated == old(self).truncated,
            decreases take - i,
        {
            self.bytes.push(chunk[i]);
            i += 1;
            proof {
                assert(self.bytes@ =~= before + chunk@.take(i as int));
            }
        }
        if chunk.len() > remaining {
            self.truncated = true;
        }
        proof {
            assert(self.bytes@ =~= (before + chunk@).take(before.len() + take));
        }
    }
}

/// Every byte captured is a byte the process wrote, in order, and
/// truncation is reported exactly when output was dropped.
pub proof fn law_capture_keeps_a_prefix(before: Seq<u8>, chunk: Seq<u8>, after: Seq<u8>, limit: int)
    requires
        before.len() <= limit,
        after == (before + chunk).take(if before.len() + chunk.len() <= limit { (before.len() + chunk.len()) as int } else { limit }),
    ensures
        after.len() <= limit,
        after.is_prefix_of(before + chunk),
        before.is_prefix_of(after),
{
    assert(after.is_prefix_of(before + chunk));
    assert forall|i: int| 0 <= i < before.len() implies after[i] == before[i] by {
        assert(after[i] == (before + chunk)[i]);
    }
}

pub open spec fn ascii_ws_byte(b: u8) -> bool {
    b == 0x20 || b == 0x09 || b == 0x0a || b == 0x0c || b == 0x0d
}

/// The bytes without leading and trailing ASCII whitespace: the range from
/// the first byte that is not whitespace to just after the last one.
pub open spec fn trimmed_bytes(b: Seq<u8>) -> Seq<u8> {
    if exists|i: int| 0 <= i < b.len() && !ascii_ws_byte(#[trigger] b[i]) {
        let start = choose|i: int|
            0 <= i < b.len() && !ascii_ws_byte(#[trigger] b[i]) && forall|j: int|
                0 <= j < i ==> ascii_ws_byte(#[trigger] b[j]);
        let last = choose|i: int|
            0 <= i < b.len() && !ascii_ws_byte(#[trigger] b[i]) && forall|j: int|
                i < j < b.len() ==> ascii_ws_byte(#[trigger] b[j]);
        b.subrange(start, last + 1)
    } else {
        Seq::empty()
    }
}

/// The byte slice without its leading and trailing
/// ASCII whitespace.
pub fn trim_ascii_whitespace(bytes: &[u8]) -> (r: Vec<u8>)
    ensures
        r@ == trimmed_bytes(bytes@),
{
    let n = bytes.len();
    let mut start: usize = 0;
    while start < n && is_ascii_ws(bytes[start])
        invariant
            start <= n,
            n == bytes@.len(),
            forall|j: int| 0 <= j < start ==> ascii_ws_byte(#[trigger] bytes@[j]),
        decreases n - start,
    {
        start += 1;
    }
    let mut end: usize = n;
    while end > start && is_ascii_ws(bytes[end - 1])
        invariant
            start <= end <= n,
            n == bytes@.len(),
            forall|j: int| end <= j < n ==> ascii_ws_byte(#[trigger] bytes@[j]),
        decreases end - start,
    {
        end -= 1;
    }
    let mut out: Vec<u8> = Vec::new();
    let mut i: usize = start;
    while i < end
        invariant
            start <= i <= end <= n,
            n == bytes@.len(),
            out@ == bytes@.subrange(start as int, i as int),
        decreases end - i,
    {
        out.push(bytes[i]);
        i += 1;
    }
    proof {
        let b = bytes@;
        if start < n {
            assert(!ascii_ws_byte(b[start as int]));
            assert(end > start);
            assert(!ascii_ws_byte(b[end - 1]));
            let s0 = choose|i: int|
                0 <= i < b.len() && !ascii_ws_byte(#[trigger] b[i]) && forall|j: int|
                    0 <= j < i ==> ascii_ws_byte(#[trigger] b[j]);
            let l0 = choose|i: int|
                0 <= i < b.len() && !ascii_ws_byte(#[trigger] b[i]) && forall|j: int|
                    i < j < b.len() ==> ascii_ws_byte(#[trigger] b[j]);
            assert(0 <= start < b.len() && !ascii_ws_byte(b[start as int]) && forall|j: int|
                0 <= j < start ==> ascii_ws_byte(#[trigger] b[j]));
            assert(0 <= end - 1 < b.len() && !ascii_ws_byte(b[end - 1]) && forall|j: int|
                end - 1 < j < b.len() ==> ascii_ws_byte(#[trigger] b[j]));
            if s0 < start {
                assert(ascii_ws_byte(b[s0]));
            }
            if s0 > start {
                assert(ascii_ws_byte(b[start as int]));
            }
            if l0 < end - 1 {
                assert(ascii_ws_byte(b[end - 1]));
            }
            if l0 > end - 1 {
                assert(ascii_ws_byte(b[l0]));
            }
            assert(out@ =~= trimmed_bytes(b));
        } else {
            assert(end == start);
            assert(!(exists|i: int| 0 <= i < b.len() && !ascii_ws_byte(#[trigger] b[i])));
            assert(out@ =~= trimmed_bytes(b));
        }
    }
    out
}

fn is_ascii_ws(b: u8) -> (r: bool)
    ensures
        r == ascii_ws_byte(b),
{
    b == 0x20 || b == 0x09 || b == 0x0a || b == 0x0c || b == 0x0d
}

/// What kind of frame an adapter returned, by its schema.
#[derive(Clone, Copy, Debug, PartialEq, Eq, Structural)]
pub enum FrameKind {
    Response,
    CredentialRequest,
    Unsupported,
}

pub fn frame_kind(schema: &str) -> (r: FrameKind)
    ensures
        r == (if schema@ == RESPONSE_SCHEMA@ {
            FrameKind::Response
        } else if schema@ == CREDENTIAL_REQUEST_SCHEMA@ {
            FrameKind::CredentialRequest
        } else {
            FrameKind::Unsupported
        }),
{
    if str_eq(schema, RESPONSE_SCHEMA) {
        FrameKind::Response
    } else if str_eq(schema, CREDENTIAL_REQUEST_SCHEMA) {
        FrameKind::CredentialRequest
    } else {
        FrameKind::Unsupported
    }
}

/// How an adapter process ended.
#[derive(Clone, Debug, PartialEq)]
pub enum ProcessExit {
    Exited { success: bool, code: Option<i32>, status_text: String },
    TimedOut,
}

/// The frame a settled process returned, ready to parse: its output with
/// surrounding whitespace removed.
pub fn settle_process_output(
    manifest: &ExternalAdapterManifest,
    invocation: &ExternalAdapterInvocation,
    exit: &ProcessExit,
    stdout: &CapturedOutput,
    requested_at: &str,
) -> (r: Result<Vec<u8>, ExternalAdapterSupervisorError>)
    ensures
        match exit {
            ProcessExit::TimedOut => r matches Err(ExternalAdapterSupervisorError::TimedOut { timeout_ms, cancellation })
                && timeout_ms == manifest.timeouts.invocation_ms
                && cancellation_frame(*cancellation, *manifest, *invocation, manifest.timeouts.invocation_ms, requested_at@),
            ProcessExit::Exited { success, status_text, .. } => if !*success {
                r matches Err(ExternalAdapterSupervisorError::ProcessFailed { exit_status }) && exit_status@ == status_text@
            } else if stdout.truncated {
                r == Err::<Vec<u8>, ExternalAdapterSupervisorError>(ExternalAdapterSupervisorError::ResponseTooLarge { limit_bytes: RESPONSE_LIMIT_BYTES })
            } else if trimmed_bytes(stdout.bytes@).len() == 0 {
                r == Err::<Vec<u8>, ExternalAdapterSupervisorError>(ExternalAdapterSupervisorError::EmptyResponse)
            } else {
                r matches Ok(b) && b@ == trimmed_bytes(stdout.bytes@)
            },
        },
{
    match exit {
        ProcessExit::TimedOut => {
            let frame = timeout_cancellation_frame(manifest, invocation, manifest.timeouts.invocation_ms, requested_at);
            Err(ExternalAdapterSupervisorError::TimedOut {
                timeout_ms: manifest.timeouts.invocation_ms,
                cancellation: Box::new(frame),
            })
        },
        ProcessExit::Exited { success, status_text, .. } => {
            if !*success {
                return Err(ExternalAdapterSupervisorError::ProcessFailed { exit_status: status_text.clone() });
            }
            if stdout.truncated {
                return Err(ExternalAdapterSupervisorError::ResponseTooLarge { limit_bytes: RESPONSE_LIMIT_BYTES });
            }
            let trimmed = trim_ascii_whitespace(stdout.bytes.as_slice());
            if trimmed.len() == 0 {
                return Err(ExternalAdapterSupervisorError::EmptyResponse);
            }
            Ok(trimmed)
        },
    }
}

pub open spec fn cancellation_frame(f: ExternalAdapterCancellationFrame, m: ExternalAdapterManifest, i: ExternalAdapterInvocation, timeout_ms: u64, requested_at: Seq<char>) -> bool {
    &&& f.schema@ == CANCELLATION_SCHEMA@
    &&& f.protocol_version@ == EXTERNAL_ADAPTER_PROTOCOL_VERSION@
    &&& f.frame_id@ == i.invocation_id@ + "_timeout_cancel"@
    &&& f.invocation_id@ == i.invocation_id@
    &&& f.adapter_id@ == m.adapter_id@
    &&& f.reason@ == "invocation timeout after "@ + crate::text::decimal(timeout_ms as nat) + "ms"@
    &&& f.requested_at@ == requested_at
}

/// The frame that cancels a timed-out invocation.
pub fn timeout_cancellation_frame(
    manifest: &ExternalAdapterManifest,
    invocation: &ExternalAdapterInvocation,
    timeout_ms: u64,
    requested_at: &str,
) -> (r: ExternalAdapterCancellationFrame)
    ensures
        cancellation_frame(r, *manifest, *invocation, timeout_ms, requested_at@),
{
    let mut reason = concat("invocation timeout after ", u64_decimal(timeout_ms).as_str());
    reason.append("ms");
    ExternalAdapterCancellationFrame {
        schema: CANCELLATION_SCHEMA.to_owned(),
        protocol_version: EXTERNAL_ADAPTER_PROTOCOL_VERSION.to_owned(),
        frame_id: concat(invocation.invocation_id.as_str(), "_timeout_cancel"),
        invocation_id: invocation.invocation_id.clone(),
        adapter_id: manifest.adapter_id.clone(),
        reason,
        requested_at: requested_at.to_owned(),
    }
}

/// The first way a response fails to answer the invocation: its schema,
/// its protocol, its adapter id, its invocation id.
pub open spec fn response_contract(i: ExternalAdapterInvocation, r: ExternalAdapterResponse) -> Option<u8> {
    if r.schema@ != RESPONSE_SCHEMA@ {
        Some(0)
    } else if r.protocol_version@ != EXTERNAL_ADAPTER_PROTOCOL_VERSION@ {
        Some(1)
    } else if r.adapter_id@ != i.adapter_id@ {
        Some(2)
    } else if r.invocation_id@ != i.invocation_id@ {
        Some(3)
    } else {
        None
    }
}

pub fn validate_response_contract(invocation: &ExternalAdapterInvocation, response: &ExternalAdapterResponse) -> (r: Result<(), ExternalAdapterSupervisorError>)
    ensures
        match response_contract(*invocation, *response) {
            None => r is Ok,
            Some(0) => r matches Err(ExternalAdapterSupervisorError::UnsupportedResponseSchema { actual }) && actual@ == response.schema@,
            Some(1) => r matches Err(ExternalAdapterSupervisorError::UnsupportedResponseProtocol { actual }) && actual@ == response.protocol_version@,
            Some(2) => r matches Err(ExternalAdapterSupervisorError::ResponseMismatch { field, expected, actual })
                && field@ == "adapter_id"@ && expected@ == invocation.adapter_id@ && actual@ == response.adapter_id@,
            Some(_) => r matches Err(ExternalAdapterSupervisorError::ResponseMismatch { field, expected, actual })
                && field@ == "invocation_id"@ && expected@ == invocation.invocation_id@ && actual@ == response.invocation_id@,
        },
{
    if !str_eq(response.schema.as_str(), RESPONSE_SCHEMA) {
        return Err(ExternalAdapterSupervisorError::UnsupportedResponseSchema { actual: response.schema.clone() });
    }
    if !str_eq(response.protocol_version.as_str(), EXTERNAL_ADAPTER_PROTOCOL_VERSION) {
        return Err(ExternalAdapterSupervisorError::UnsupportedResponseProtocol { actual: response.protocol_version.clone() });
    }
    if !str_eq(response.adapter_id.as_str(), invocation.adapter_id.as_str()) {
        return Err(ExternalAdapterSupervisorError::ResponseMismatch {
            field: "adapter_id",
            expected: invocation.adapter_id.clone(),
            actual: response.adapter_id.clone(),
        });
    }
    if !str_eq(response.invocation_id.as_str(), invocation.invocation_id.as_str()) {
        return Err(ExternalAdapterSupervisorError::ResponseMismatch {
            field: "invocation_id",
            expected: invocation.invocation_id.clone(),
            actual: response.invocation_id.clone(),
        });
    }
    Ok(())
}

// ---------------------------------------------------------------------
// From response to skill output.
// ---------------------------------------------------------------------

/// What a supervised call returned.
#[derive(Clone, Debug, PartialEq)]
pub struct ExternalAdapterProcessOutcome {
    pub response: ExternalAdapterResponse,
    pub process_exit_code: Option<i32>,
    pub duration_ms: u64,
}

pub open spec fn status_text(s: ExternalAdapterStatus) -> Seq<char> {
    match s {
        ExternalAdapterStatus::Completed => "completed"@,
        ExternalAdapterStatus::Failed => "failed"@,
        ExternalAdapterStatus::HostResolutionRequested => "host_resolution_requested"@,
        ExternalAdapterStatus::Cancelled => "cancelled"@,
    }
}

pub fn external_adapter_status_label(status: &ExternalAdapterStatus) -> (r: &'static str)
    ensures
        r@ == status_text(*status),
{
    match status {
        ExternalAdapterStatus::Completed => "completed",
        ExternalAdapterStatus::Failed => "failed",
        ExternalAdapterStatus::HostResolutionRequested => "host_resolution_requested",
        ExternalAdapterStatus::Cancelled => "cancelled",
    }
}

/// Only a completed adapter run is a successful skill run.
pub fn runtime_status(status: &ExternalAdapterStatus) -> (r: InvocationStatus)
    ensures
        (r == InvocationStatus::Success) == (*status == ExternalAdapterStatus::Completed),
{
    match status {
        ExternalAdapterStatus::Completed => InvocationStatus::Success,
        _ => InvocationStatus::Failure,
    }
}

/// The exit code a response reports, when it fits `i32`.
pub fn response_exit_code(response: &ExternalAdapterResponse) -> (r: Result<Option<i32>, ExternalAdapterSkillAdapterError>)
    ensures
        match response.exit_code {
            Some(Some(c)) => if i32::MIN <= c <= i32::MAX {
                r == Ok::<Option<i32>, ExternalAdapterSkillAdapterError>(Some(c as i32))
            } else {
                r == Err::<Option<i32>, ExternalAdapterSkillAdapterError>(ExternalAdapterSkillAdapterError::ExitCodeOutOfRange { actual: c })
            },
            _ => r == Ok::<Option<i32>, ExternalAdapterSkillAdapterError>(None),
        },
{
    match response.exit_code {
        Some(Some(c)) => {
            if c >= -2147483648i64 && c <= 2147483647i64 {
                Ok(Some(c as i32))
            } else {
                Err(ExternalAdapterSkillAdapterError::ExitCodeOutOfRange { actual: c })
            }
        },
        _ => Ok(None),
    }
}

/// The text a response reports: its stdout, else its output object as
/// JSON, else nothing.
pub fn response_stdout(response: &ExternalAdapterResponse) -> (r: String)
    ensures
        r@ == match response.stdout {
            Some(s) => s@,
            None => match response.output {
                Some(o) => json_text(JsonData::Object(o.view())),
                None => Seq::empty(),
            },
        },
{
    match &response.stdout {
        Some(s) => s.clone(),
        None => match &response.output {
            Some(o) => render_json(&JsonValue::Object(o.copy())),
            None => String::new(),
        },
    }
}

/// The metadata of a skill output built from a response: the response's
/// metadata with the adapter id, the adapter status and the process exit
/// code recorded.
pub open spec fn outcome_metadata(o: ExternalAdapterProcessOutcome) -> Seq<(Seq<char>, JsonData)> {
    let base = match o.response.metadata {
        Some(m) => overlay(Seq::empty(), m.view()),
        None => Seq::empty(),
    };
    let with_id = spec_insert(base, "adapter_id"@, JsonData::Str(o.response.adapter_id@));
    let with_status = spec_insert(with_id, "external_adapter_status"@, JsonData::Str(status_text(o.response.status)));
    match o.process_exit_code {
        Some(c) => spec_insert(with_status, "process_exit_code"@, JsonData::Number(NumberData::I64(c as i64))),
        None => with_status,
    }
}

/// The skill output a supervised call amounts to.
pub fn skill_output_from_outcome(outcome: ExternalAdapterProcessOutcome) -> (r: Result<SkillOutput, ExternalAdapterSkillAdapterError>)
    ensures
        match outcome.response.exit_code {
            Some(Some(c)) => !(i32::MIN <= c <= i32::MAX) ==> r == Err::<SkillOutput, ExternalAdapterSkillAdapterError>(ExternalAdapterSkillAdapterError::ExitCodeOutOfRange { actual: c }),
            _ => true,
        },
        r matches Ok(out) ==> {
            &&& (out.status == InvocationStatus::Success) == (outcome.response.status == ExternalAdapterStatus::Completed)
            &&& out.stdout@ == (match outcome.response.stdout {
                Some(s) => s@,
                None => match outcome.response.output {
                    Some(o) => json_text(JsonData::Object(o.view())),
                    None => Seq::empty(),
                },
            })
            &&& out.stderr@ == (match outcome.response.stderr {
                Some(s) => s@,
                None => Seq::empty(),
            })
            &&& out.exit_code == (match outcome.response.exit_code {
                Some(Some(c)) => Some(c as i32),
                _ => None,
            })
            &&& out.duration_ms == outcome.duration_ms
            &&& out.metadata.view() == outcome_metadata(outcome)
        },
        (match outcome.response.exit_code {
            Some(Some(c)) => i32::MIN <= c <= i32::MAX,
            _ => true,
        }) ==> r is Ok,
{
    let response = &outcome.response;
    let status = runtime_status(&response.status);
    let stdout = response_stdout(response);
    let stderr = match &response.stderr {
        Some(s) => s.clone(),
        None => String::new(),
    };
    let exit_code = match response_exit_code(response) {
        Err(e) => return Err(e),
        Ok(c) => c,
    };
    let mut metadata = match &response.metadata {
        Some(m) => m.normalized(),
        None => JsonObject::new(),
    };
    metadata.insert("adapter_id".to_owned(), JsonValue::String(response.adapter_id.clone()));
    metadata.insert(
        "external_adapter_status".to_owned(),
        JsonValue::String(external_adapter_status_label(&response.status).to_owned()),
    );
    match outcome.process_exit_code {
        Some(c) => metadata.insert("process_exit_code".to_owned(), JsonValue::Number(JsonNumber::I64(c as i64))),
        None => {},
    }
    Ok(SkillOutput { status, stdout, stderr, exit_code, duration_ms: outcome.duration_ms, metadata })
}

// ---------------------------------------------------------------------
// The invocation of a skill.
// ---------------------------------------------------------------------

pub open spec fn id_char(c: char) -> bool {
    is_ascii_alnum(c) || c == '_' || c == '.' || c == '-'
}

/// The characters kept by request-id normalization, each run of others
/// collapsed to one `_`.
pub open spec fn collapse(s: Seq<char>) -> Seq<char>
    decreases s.len(),
{
    if s.len() == 0 {
        Seq::empty()
    } else {
        let head = collapse(s.drop_last());
        let c = s.last();
        if id_char(c) {
            head.push(c)
        } else if s.len() >= 2 && !id_char(s[s.len() - 2]) {
            head
        } else {
            head.push('_')
        }
    }
}

pub open spec fn id_trim_set() -> Seq<char> {
    seq!['.', '_', '-']
}

/// A request id: the collapsed text, or `skill` when nothing but
/// separators remains.
pub open spec fn normalized_id(s: Seq<char>) -> Seq<char> {
    if trim_by(collapse(s), in_set(id_trim_set())).len() == 0 {
        "skill"@
    } else {
        collapse(s)
    }
}

pub fn normalize_request_id(value: &str) -> (r: String)
    ensures
        r@ == normalized_id(value@),
{
    let cs = chars_of(value);
    let mut out: Vec<char> = Vec::new();
    let mut replaced = false;
    let mut i: usize = 0;
    proof {
        assert(cs@.take(0) =~= Seq::<char>::empty());
    }
    while i < cs.len()
        invariant
            i <= cs@.len(),
            cs@ == value@,
            out@ == collapse(cs@.take(i as int)),
            replaced == (i > 0 && !id_char(cs@[i - 1])),
        decreases cs@.len() - i,
    {
        proof {
            assert(cs@.take(i + 1).drop_last() =~= cs@.take(i as int));
            assert(cs@.take(i + 1).last() == cs@[i as int]);
            if i > 0 {
                assert(cs@.take(i + 1)[i - 1] == cs@[i - 1]);
            }
        }
        let c = cs[i];
        if is_ascii_alnum_exec(c) || c == '_' || c == '.' || c == '-' {
            out.push(c);
            replaced = false;
        } else if !replaced {
            out.push('_');
            replaced = true;
        }
        i += 1;
    }
    proof {
        assert(cs@.take(cs@.len() as int) =~= cs@);
    }
    let normalized = string_from_chars(out.as_slice());
    let set: [char; 3] = ['.', '_', '-'];
    proof {
        assert(set@ =~= id_trim_set());
    }
    let core = trim_chars(normalized.as_str(), &set);
    if core.as_str().is_empty() {
        return "skill".to_owned();
    }
    normalized
}

/// An identifier segment: the normalized request id without leading and
/// trailing separators, dots turned into dashes.
pub open spec fn adapter_segment(s: Seq<char>) -> Seq<char> {
    trim_by(normalized_id(s), in_set(id_trim_set())).map_values(|c: char| if c == '.' { '-' } else { c })
}

pub fn identifier_segment(value: &str) -> (r: String)
    ensures
        r@ == adapter_segment(value@),
{
    let n = normalize_request_id(value);
    let set: [char; 3] = ['.', '_', '-'];
    proof {
        assert(set@ =~= id_trim_set());
    }
    let t = trim_chars(n.as_str(), &set);
    let cs = chars_of(t.as_str());
    let mut out: Vec<char> = Vec::new();
    let mut i: usize = 0;
    while i < cs.len()
        invariant
            i <= cs@.len(),
            out@ == cs@.take(i as int).map_values(|c: char| if c == '.' { '-' } else { c }),
        decreases cs@.len() - i,
    {
        let c = cs[i];
        out.push(if c == '.' { '-' } else { c });
        i += 1;
        proof {
            assert(out@ =~= cs@.take(i as int).map_values(|c: char| if c == '.' { '-' } else { c }));
        }
    }
    proof {
        assert(cs@.take(cs@.len() as int) =~= cs@);
    }
    string_from_chars(out.as_slice())
}

/// The inline manifest a source carries: `external_adapter_manifest`, or
/// `manifest` inside an `external_adapter` object.
pub open spec fn inline_manifest(source: Seq<(Seq<char>, JsonData)>) -> Option<JsonData> {
    match lookup(source, "external_adapter_manifest"@) {
        Some(v) => Some(v),
        None => match lookup(source, "external_adapter"@) {
            Some(JsonData::Object(o)) => lookup(o, "manifest"@),
            _ => None,
        },
    }
}

pub fn inline_manifest_value(source: &JsonObject) -> (r: Option<&JsonValue>)
    ensures
        opt_data(r) == inline_manifest(source.view()),
{
    match source.get("external_adapter_manifest") {
        Some(v) => Some(v),
        None => match source.get("external_adapter") {
            Some(JsonValue::Object(o)) => o.get("manifest"),
            _ => None,
        },
    }
}

/// Resolves a source's inline manifest to the object the manifest parser
/// reads.
pub fn inline_manifest_object(source: &JsonObject) -> (r: Result<&JsonObject, ExternalAdapterSkillAdapterError>)
    ensures
        match inline_manifest(source.view()) {
            None => r == Err::<&JsonObject, ExternalAdapterSkillAdapterError>(ExternalAdapterSkillAdapterError::MissingInlineManifest),
            Some(JsonData::Object(o)) => r matches Ok(x) && x.view() == o,
            Some(_) => r == Err::<&JsonObject, ExternalAdapterSkillAdapterError>(ExternalAdapterSkillAdapterError::InvalidInlineManifestShape),
        },
{
    match inline_manifest_value(source) {
        None => Err(ExternalAdapterSkillAdapterError::MissingInlineManifest),
        Some(JsonValue::Object(o)) => Ok(o),
        Some(_) => Err(ExternalAdapterSkillAdapterError::InvalidInlineManifestShape),
    }
}

pub open spec fn source_string(source: Seq<(Seq<char>, JsonData)>, field: Seq<char>) -> Result<Option<Seq<char>>, ()> {
    match lookup(source, field) {
        Some(JsonData::Str(s)) => Ok(Some(s)),
        Some(_) => Err(()),
        None => Ok(None),
    }
}

pub fn optional_source_string(source: &JsonObject, field: &'static str) -> (r: Result<Option<String>, ExternalAdapterSkillAdapterError>)
    ensures
        match source_string(source.view(), field@) {
            Ok(o) => r matches Ok(x) && crate::reference::opt_str(x) == o,
            Err(_) => r == Err::<Option<String>, ExternalAdapterSkillAdapterError>(ExternalAdapterSkillAdapterError::InvalidSourceMetadata { field }),
        },
{
    match source.get(field) {
        Some(JsonValue::String(s)) => Ok(Some(s.clone())),
        Some(_) => Err(ExternalAdapterSkillAdapterError::InvalidSourceMetadata { field }),
        None => Ok(None),
    }
}

/// The working directory of an invocation: the source's `cwd` (relative to
/// the skill directory unless absolute), or the skill directory.
pub open spec fn cwd_spec(cwd: Option<Seq<char>>, dir: Seq<char>) -> Seq<char> {
    match cwd {
        None => dir,
        Some(c) => if starts_with(c, "/"@) {
            c
        } else if dir.len() == 0 {
            c
        } else if dir.last() == '/' {
            dir + c
        } else {
            dir + "/"@ + c
        },
    }
}

pub fn invocation_cwd(cwd: &Option<String>, skill_directory: &str) -> (r: String)
    ensures
        r@ == cwd_spec(crate::reference::opt_str(*cwd), skill_directory@),
{
    proof {
        reveal_strlit("/");
    }
    let c = match cwd {
        None => return skill_directory.to_owned(),
        Some(c) => c.as_str(),
    };
    if starts_with_str(c, "/") {
        return c.to_owned();
    }
    if skill_directory.is_empty() {
        return c.to_owned();
    }
    let ghost d = skill_directory@;
    if ends_with_str(skill_directory, "/") {
        proof {
            assert(d.skip(d.len() - 1)[0] == d.last());
        }
        return concat(skill_directory, c);
    }
    proof {
        if d.last() == '/' {
            assert(d.skip(d.len() - 1) =~= "/"@);
        }
    }
    concat3(skill_directory, "/", c)
}

// ---------------------------------------------------------------------
// The invocation of a skill.
// ---------------------------------------------------------------------

/// A value of the source metadata, or the default.
pub open spec fn or_default(o: Option<Seq<char>>, d: Seq<char>) -> Seq<char> {
    match o {
        Some(s) => s,
        None => d,
    }
}

/// The environment an invocation hands the adapter: every binding as a
/// string value; none when the environment is empty.
pub open spec fn invocation_env_data(env: Seq<(String, String)>) -> Option<Seq<(Seq<char>, JsonData)>> {
    if env.len() == 0 {
        None
    } else {
        Some(env.map_values(|p: (String, String)| (p.0@, JsonData::Str(p.1@))))
    }
}

pub fn invocation_env(env: &Vec<(String, String)>) -> (r: Option<JsonObject>)
    ensures
        match r {
            Some(o) => invocation_env_data(env@) == Some(o.view()),
            None => invocation_env_data(env@) is None,
        },
{
    if env.len() == 0 {
        return None;
    }
    let mut entries: Vec<(String, JsonValue)> = Vec::new();
    let mut i: usize = 0;
    while i < env.len()
        invariant
            i <= env@.len(),
            entries@.len() == i,
            forall|j: int| 0 <= j < i ==> (#[trigger] entries@[j]).0@ == env@[j].0@ && entries@[j].1.data() == JsonData::Str(env@[j].1@),
        decreases env@.len() - i,
    {
        entries.push((env[i].0.clone(), JsonValue::String(env[i].1.clone())));
        i += 1;
    }
    let o = JsonObject { entries };
    proof {
        lemma_entries_data(o.entries@);
        assert(o.view() =~= env@.map_values(|p: (String, String)| (p.0@, JsonData::Str(p.1@))));
    }
    Some(o)
}

/// The metadata field whose value is not a string, in the order the
/// fields are read; none when all four are strings or absent.
pub open spec fn bad_source_field(raw: Seq<(Seq<char>, JsonData)>) -> Option<Seq<char>> {
    if source_string(raw, "invocation_id"@) is Err {
        Some("invocation_id"@)
    } else if source_string(raw, "run_id"@) is Err {
        Some("run_id"@)
    } else if source_string(raw, "step_id"@) is Err {
        Some("step_id"@)
    } else if source_string(raw, "skill_ref"@) is Err {
        Some("skill_ref"@)
    } else {
        None
    }
}

/// `inv` is the invocation the runtime sends for a run of `skill_name`
/// from `source`, whose metadata reads `raw`.
pub open spec fn invocation_fits(
    inv: ExternalAdapterInvocation,
    skill_name: Seq<char>,
    source: SkillSource,
    inputs: JsonObject,
    resolved_inputs: JsonObject,
    skill_directory: Seq<char>,
    env: Seq<(String, String)>,
    manifest: ExternalAdapterManifest,
) -> bool {
    let raw = source.raw.view();
    let run_id = or_default(source_string(raw, "run_id"@)->Ok_0, "run_"@ + adapter_segment(skill_name));
    &&& inv.schema@ == INVOCATION_SCHEMA@
    &&& inv.protocol_version@ == EXTERNAL_ADAPTER_PROTOCOL_VERSION@
    &&& inv.invocation_id@ == or_default(source_string(raw, "invocation_id"@)->Ok_0,
        "external_adapter."@ + adapter_segment(skill_name) + ".invoke"@)
    &&& inv.adapter_id@ == manifest.adapter_id@
    &&& inv.run_id@ == run_id
    &&& inv.step_id@ == or_default(source_string(raw, "step_id"@)->Ok_0, adapter_segment(skill_name))
    &&& inv.source_type@ == source_kind_name(source.source_type)
    &&& inv.skill_ref@ == or_default(source_string(raw, "skill_ref"@)->Ok_0, skill_name)
    &&& inv.harness_ref@ == (ReferenceView {
        reference_type: ReferenceType::Harness,
        uri: "runx:harness:"@ + run_id,
        provider: None,
        locator: None,
        label: None,
        observed_at: None,
        proof_kind: None,
    })
    &&& inv.host_ref@ == (ReferenceView {
        reference_type: ReferenceType::Host,
        uri: "runx:host:runtime"@,
        provider: None,
        locator: None,
        label: None,
        observed_at: None,
        proof_kind: None,
    })
    &&& inv.inputs.view() == inputs.view()
    &&& (if resolved_inputs.entries@.len() == 0 {
        inv.resolved_inputs is None
    } else {
        inv.resolved_inputs matches Some(o) && o.view() == resolved_inputs.view()
    })
    &&& opt_str(inv.cwd) == Some(cwd_spec(opt_str(source.cwd), skill_directory))
    &&& opt_str(inv.receipt_dir) == env_find(env, "RUNX_RECEIPT_DIR"@)
    &&& match inv.env {
        Some(o) => invocation_env_data(env) == Some(o.view()),
        None => invocation_env_data(env) is None,
    }
    &&& inv.credential_refs is None
    &&& inv.metadata is None
}

/// The invocation the runtime sends an
/// external adapter for a run: ids from the source metadata or derived
/// from the skill name, the run's inputs, working directory and
/// environment. A metadata value that is not a string is refused.
pub fn skill_invocation_contract(
    skill_name: &str,
    source: &SkillSource,
    inputs: &JsonObject,
    resolved_inputs: &JsonObject,
    skill_directory: &str,
    env: &Vec<(String, String)>,
    manifest: &ExternalAdapterManifest,
) -> (r: Result<ExternalAdapterInvocation, ExternalAdapterSkillAdapterError>)
    ensures
        match bad_source_field(source.raw.view()) {
            Some(f) => r matches Err(ExternalAdapterSkillAdapterError::InvalidSourceMetadata { field }) && field@ == f,
            None => r matches Ok(inv) && invocation_fits(inv, skill_name@, *source, *inputs, *resolved_inputs,
                skill_directory@, env@, *manifest),
        },
{
    proof {
        reveal_strlit("invocation_id");
        reveal_strlit("run_id");
        reveal_strlit("step_id");
        reveal_strlit("skill_ref");
    }
    let segment = identifier_segment(skill_name);
    let invocation_id = match optional_source_string(&source.raw, "invocation_id")? {
        Some(v) => v,
        None => concat3("external_adapter.", segment.as_str(), ".invoke"),
    };
    let run_id = match optional_source_string(&source.raw, "run_id")? {
        Some(v) => v,
        None => concat("run_", segment.as_str()),
    };
    let step_id = match optional_source_string(&source.raw, "step_id")? {
        Some(v) => v,
        None => segment.clone(),
    };
    let skill_ref = match optional_source_string(&source.raw, "skill_ref")? {
        Some(v) => v,
        None => skill_name.to_owned(),
    };
    let harness_uri = concat("runx:harness:", run_id.as_str());
    let resolved = if resolved_inputs.entries.len() == 0 {
        None
    } else {
        Some(resolved_inputs.copy())
    };
    Ok(ExternalAdapterInvocation {
        schema: INVOCATION_SCHEMA.to_owned(),
        protocol_version: EXTERNAL_ADAPTER_PROTOCOL_VERSION.to_owned(),
        invocation_id,
        adapter_id: manifest.adapter_id.clone(),
        run_id,
        step_id,
        source_type: source.source_type.as_str().to_owned(),
        skill_ref,
        harness_ref: Reference::new(ReferenceType::Harness, harness_uri.as_str()),
        host_ref: Reference::new(ReferenceType::Host, "runx:host:runtime"),
        inputs: inputs.copy(),
        resolved_inputs: resolved,
        cwd: Some(invocation_cwd(&source.cwd, skill_directory)),
        receipt_dir: env_get(env, "RUNX_RECEIPT_DIR"),
        env: invocation_env(env),
        credential_refs: None,
        metadata: None,
    })
}

// ---------------------------------------------------------------------
// Error messages.
// ---------------------------------------------------------------------

/// How a transport kind is written in a message.
pub open spec fn transport_kind_text(k: ExternalAdapterTransportKind) -> Seq<char> {
    match k {
        ExternalAdapterTransportKind::Process => "Process"@,
        ExternalAdapterTransportKind::Http => "Http"@,
    }
}

/// `s` in single quotes.
pub open spec fn quoted_text(s: Seq<char>) -> Seq<char> {
    "'"@ + s + "'"@
}

pub open spec fn supervisor_error_text(e: ExternalAdapterSupervisorError) -> Seq<char> {
    match e {
        ExternalAdapterSupervisorError::UnsupportedManifestProtocol { actual } =>
            "external adapter manifest uses unsupported protocol version "@ + quoted_text(actual@),
        ExternalAdapterSupervisorError::UnsupportedInvocationProtocol { actual } =>
            "external adapter invocation uses unsupported protocol version "@ + quoted_text(actual@),
        ExternalAdapterSupervisorError::UnsupportedResponseProtocol { actual } =>
            "external adapter response uses unsupported protocol version "@ + quoted_text(actual@),
        ExternalAdapterSupervisorError::UnsupportedManifestSchema { actual } =>
            "external adapter manifest schema "@ + quoted_text(actual@) + " is unsupported"@,
        ExternalAdapterSupervisorError::UnsupportedInvocationSchema { actual } =>
            "external adapter invocation schema "@ + quoted_text(actual@) + " is unsupported"@,
        ExternalAdapterSupervisorError::UnsupportedResponseSchema { actual } =>
            "external adapter response schema "@ + quoted_text(actual@) + " is unsupported"@,
        ExternalAdapterSupervisorError::UnsupportedTransport { kind } =>
            "external adapter manifest uses unsupported transport "@ + quoted_text(transport_kind_text(kind)),
        ExternalAdapterSupervisorError::MissingProcessCommand => "external adapter process transport is missing command"@,
        ExternalAdapterSupervisorError::EmptyProcessCommand => "external adapter process command is empty"@,
        ExternalAdapterSupervisorError::AdapterIdMismatch { manifest_adapter_id, invocation_adapter_id } =>
            "external adapter invocation adapter id "@ + quoted_text(invocation_adapter_id@)
                + " does not match manifest adapter id "@ + quoted_text(manifest_adapter_id@),
        ExternalAdapterSupervisorError::UnsupportedSourceType { adapter_id, source_type } =>
            "external adapter "@ + quoted_text(adapter_id@) + " does not support source type "@ + quoted_text(source_type@),
        ExternalAdapterSupervisorError::InvalidStartupTimeout => "external adapter startup timeout must be greater than zero"@,
        ExternalAdapterSupervisorError::InvalidInvocationTimeout => "external adapter invocation timeout must be greater than zero"@,
        ExternalAdapterSupervisorError::InvalidEnvValue { key } =>
            "external adapter invocation env value "@ + quoted_text(key@) + " must be a string"@,
        ExternalAdapterSupervisorError::TimedOut { timeout_ms, .. } =>
            "external adapter process timed out after "@ + decimal(timeout_ms as nat) + "ms"@,
        ExternalAdapterSupervisorError::ProcessFailed { exit_status } =>
            "external adapter process exited before returning an accepted response: "@ + exit_status@,
        ExternalAdapterSupervisorError::EmptyResponse => "external adapter process returned no stdout response"@,
        ExternalAdapterSupervisorError::ResponseTooLarge { limit_bytes } =>
            "external adapter process response exceeded "@ + decimal(limit_bytes as nat) + " bytes"@,
        ExternalAdapterSupervisorError::UnexpectedCredentialRequest { request_id } =>
            "external adapter process made an unexpected credential request "@ + quoted_text(request_id@),
        ExternalAdapterSupervisorError::UnsupportedFrameSchema { schema } =>
            "external adapter process returned unsupported frame schema "@ + quoted_text(schema@),
        ExternalAdapterSupervisorError::ResponseMismatch { field, expected, actual } =>
            "external adapter response "@ + field@ + " was "@ + quoted_text(actual@) + ", expected "@ + quoted_text(expected@),
        ExternalAdapterSupervisorError::Io { context, message } =>
            "external adapter process I/O failed while "@ + context@ + ": "@ + message@,
        ExternalAdapterSupervisorError::Json { context, message } =>
            "external adapter JSON failed while "@ + context@ + ": "@ + message@,
    }
}

/// `s` in single quotes.
fn quote(s: &str) -> (r: String)
    ensures
        r@ == quoted_text(s@),
{
    concat3("'", s, "'")
}

impl ExternalAdapterSupervisorError {
    /// The error's message.
    pub fn message(&self) -> (r: String)
        ensures
            r@ == supervisor_error_text(*self),
    {
        match self {
            ExternalAdapterSupervisorError::UnsupportedManifestProtocol { actual } =>
                concat("external adapter manifest uses unsupported protocol version ", quote(actual.as_str()).as_str()),
            ExternalAdapterSupervisorError::UnsupportedInvocationProtocol { actual } =>
                concat("external adapter invocation uses unsupported protocol version ", quote(actual.as_str()).as_str()),
            ExternalAdapterSupervisorError::UnsupportedResponseProtocol { actual } =>
                concat("external adapter response uses unsupported protocol version ", quote(actual.as_str()).as_str()),
            ExternalAdapterSupervisorError::UnsupportedManifestSchema { actual } =>
                concat3("external adapter manifest schema ", quote(actual.as_str()).as_str(), " is unsupported"),
            ExternalAdapterSupervisorError::UnsupportedInvocationSchema { actual } =>
                concat3("external adapter invocation schema ", quote(actual.as_str()).as_str(), " is unsupported"),
            ExternalAdapterSupervisorError::UnsupportedResponseSchema { actual } =>
                concat3("external adapter response schema ", quote(actual.as_str()).as_str(), " is unsupported"),
            ExternalAdapterSupervisorError::UnsupportedTransport { kind } => {
                let k = match kind {
                    ExternalAdapterTransportKind::Process => "Process",
                    ExternalAdapterTransportKind::Http => "Http",
                };
                concat("external adapter manifest uses unsupported transport ", quote(k).as_str())
            },
            ExternalAdapterSupervisorError::MissingProcessCommand => "external adapter process transport is missing command".to_owned(),
            ExternalAdapterSupervisorError::EmptyProcessCommand => "external adapter process command is empty".to_owned(),
            ExternalAdapterSupervisorError::AdapterIdMismatch { manifest_adapter_id, invocation_adapter_id } => {
                let mut m = concat("external adapter invocation adapter id ", quote(invocation_adapter_id.as_str()).as_str());
                m.append(" does not match manifest adapter id ");
                m.append(quote(manifest_adapter_id.as_str()).as_str());
                m
            },
            ExternalAdapterSupervisorError::UnsupportedSourceType { adapter_id, source_type } => {
                let mut m = concat("external adapter ", quote(adapter_id.as_str()).as_str());
                m.append(" does not support source type ");
                m.append(quote(source_type.as_str()).as_str());
                m
            },
            ExternalAdapterSupervisorError::InvalidStartupTimeout => "external adapter startup timeout must be greater than zero".to_owned(),
            ExternalAdapterSupervisorError::InvalidInvocationTimeout => "external adapter invocation timeout must be greater than zero".to_owned(),
            ExternalAdapterSupervisorError::InvalidEnvValue { key } =>
                concat3("external adapter invocation env value ", quote(key.as_str()).as_str(), " must be a string"),
            ExternalAdapterSupervisorError::TimedOut { timeout_ms, .. } =>
                concat3("external adapter process timed out after ", u64_decimal(*timeout_ms).as_str(), "ms"),
            ExternalAdapterSupervisorError::ProcessFailed { exit_status } =>
                concat("external adapter process exited before returning an accepted response: ", exit_status.as_str()),
            ExternalAdapterSupervisorError::EmptyResponse => "external adapter process returned no stdout response".to_owned(),
            ExternalAdapterSupervisorError::ResponseTooLarge { limit_bytes } =>
                concat3("external adapter process response exceeded ", u64_decimal(*limit_bytes as u64).as_str(), " bytes"),
            ExternalAdapterSupervisorError::UnexpectedCredentialRequest { request_id } =>
                concat("external adapter process made an unexpected credential request ", quote(request_id.as_str()).as_str()),
            ExternalAdapterSupervisorError::UnsupportedFrameSchema { schema } =>
                concat("external adapter process returned unsupported frame schema ", quote(schema.as_str()).as_str()),
            ExternalAdapterSupervisorError::ResponseMismatch { field, expected, actual } => {
                let mut m = concat3("external adapter response ", field, " was ");
                m.append(quote(actual.as_str()).as_str());
                m.append(", expected ");
                m.append(quote(expected.as_str()).as_str());
                m
            },
            ExternalAdapterSupervisorError::Io { context, message } => {
                let mut m = concat3("external adapter process I/O failed while ", context.as_str(), ": ");
                m.append(message.as_str());
                m
            },
            ExternalAdapterSupervisorError::Json { context, message } => {
                let mut m = concat3("external adapter JSON failed while ", context.as_str(), ": ");
                m.append(message.as_str());
                m
            },
        }
    }
}

pub open spec fn skill_adapter_error_text(e: ExternalAdapterSkillAdapterError) -> Seq<char> {
    match e {
        ExternalAdapterSkillAdapterError::MissingInlineManifest =>
            "external adapter source is missing an inline manifest at source.external_adapter.manifest or source.external_adapter_manifest"@,
        ExternalAdapterSkillAdapterError::InvalidInlineManifestShape => "external adapter inline manifest must be an object"@,
        ExternalAdapterSkillAdapterError::InvalidSourceMetadata { field } =>
            "external adapter source metadata "@ + quoted_text(field@) + " must be a string when present"@,
        ExternalAdapterSkillAdapterError::ExitCodeOutOfRange { actual } =>
            "external adapter response exit_code "@ + signed_decimal(actual as int) + " does not fit in a runtime process exit code"@,
        ExternalAdapterSkillAdapterError::Json { context, message } =>
            "external adapter JSON failed while "@ + context@ + ": "@ + message@,
        ExternalAdapterSkillAdapterError::Supervisor(s) => supervisor_error_text(s),
    }
}

impl ExternalAdapterSkillAdapterError {
    /// The error's message; a supervisor error reads as its own.
    pub fn message(&self) -> (r: String)
        ensures
            r@ == skill_adapter_error_text(*self),
    {
        match self {
            ExternalAdapterSkillAdapterError::MissingInlineManifest =>
                "external adapter source is missing an inline manifest at source.external_adapter.manifest or source.external_adapter_manifest".to_owned(),
            ExternalAdapterSkillAdapterError::InvalidInlineManifestShape => "external adapter inline manifest must be an object".to_owned(),
            ExternalAdapterSkillAdapterError::InvalidSourceMetadata { field } =>
                concat3("external adapter source metadata ", quote(field).as_str(), " must be a string when present"),
            ExternalAdapterSkillAdapterError::ExitCodeOutOfRange { actual } =>
                concat3("external adapter response exit_code ", i64_decimal(*actual).as_str(), " does not fit in a runtime process exit code"),
            ExternalAdapterSkillAdapterError::Json { context, message } => {
                let mut m = concat3("external adapter JSON failed while ", context.as_str(), ": ");
                m.append(message.as_str());
                m
            },
            ExternalAdapterSkillAdapterError::Supervisor(s) => s.message(),
        }
    }
}

// ---------------------------------------------------------------------
// The skill adapter.
// ---------------------------------------------------------------------

/// Finds the manifest of the external adapter a run goes through.
pub trait ExternalAdapterManifestResolver {
    /// Whether `result` is what this resolver gives for `request`. A
    /// resolver that says nothing more leaves every result possible.
    open spec fn resolves(
        &self,
        request: SkillInvocation,
        result: Result<ExternalAdapterManifest, ExternalAdapterSkillAdapterError>,
    ) -> bool {
        true
    }

    fn resolve_manifest(&self, request: &SkillInvocation) -> (r: Result<ExternalAdapterManifest, ExternalAdapterSkillAdapterError>)
        ensures
            self.resolves(*request, r),
    ;
}

/// Runs an external adapter for one invocation.
pub trait ExternalAdapterSupervisor {
    /// Whether `result` is what this supervisor gives for running
    /// `invocation` through the adapter of `manifest`. A supervisor that
    /// says nothing more leaves every result possible.
    open spec fn runs(
        &self,
        manifest: ExternalAdapterManifest,
        invocation: ExternalAdapterInvocation,
        result: Result<ExternalAdapterProcessOutcome, ExternalAdapterSupervisorError>,
    ) -> bool {
        true
    }

    fn invoke_external_adapter(
        &self,
        manifest: &ExternalAdapterManifest,
        invocation: &ExternalAdapterInvocation,
    ) -> (r: Result<ExternalAdapterProcessOutcome, ExternalAdapterSupervisorError>)
        ensures
            self.runs(*manifest, *invocation, r),
    ;
}

/// What a run through an external adapter ends in, given what the
/// resolver gave for the request (`resolved`) and, where it got that far,
/// what the supervisor gave (`supervised`) for the invocation built from
/// the request and the manifest (`invocation`): the resolver's error; the
/// invocation contract's error; the supervisor's error; or the skill
/// output of the outcome.
pub open spec fn external_run_fits<R: ExternalAdapterManifestResolver, S: ExternalAdapterSupervisor>(
    r: Result<SkillOutput, ExternalAdapterSkillAdapterError>,
    request: SkillInvocation,
    resolver: R,
    supervisor: S,
    resolved: Result<ExternalAdapterManifest, ExternalAdapterSkillAdapterError>,
    invocation: ExternalAdapterInvocation,
    supervised: Option<Result<ExternalAdapterProcessOutcome, ExternalAdapterSupervisorError>>,
) -> bool {
    &&& resolver.resolves(request, resolved)
    &&& match resolved {
        Err(e) => r == Err::<SkillOutput, ExternalAdapterSkillAdapterError>(e) && supervised is None,
        Ok(m) => match bad_source_field(request.source.raw.view()) {
            Some(f) => supervised is None
                && (r matches Err(ExternalAdapterSkillAdapterError::InvalidSourceMetadata { field }) && field@ == f),
            None => match supervised {
                None => false,
                Some(answer) => {
                    &&& invocation_fits(invocation, request.skill_name@, request.source, request.inputs,
                        request.resolved_inputs, request.skill_directory@, request.env@, m)
                    &&& supervisor.runs(m, invocation, answer)
                    &&& match answer {
                        Err(e) => r == Err::<SkillOutput, ExternalAdapterSkillAdapterError>(ExternalAdapterSkillAdapterError::Supervisor(e)),
                        Ok(o) => skill_output_fits(r, o),
                    }
                },
            },
        },
    }
}

/// `r` is what `skill_output_from_outcome` gives for `outcome`.
pub open spec fn skill_output_fits(r: Result<SkillOutput, ExternalAdapterSkillAdapterError>, outcome: ExternalAdapterProcessOutcome) -> bool {
    &&& match outcome.response.exit_code {
        Some(Some(c)) => !(i32::MIN <= c <= i32::MAX) ==> r == Err::<SkillOutput, ExternalAdapterSkillAdapterError>(ExternalAdapterSkillAdapterError::ExitCodeOutOfRange { actual: c }),
        _ => true,
    }
    &&& (match outcome.response.exit_code {
        Some(Some(c)) => i32::MIN <= c <= i32::MAX,
        _ => true,
    }) ==> (r matches Ok(out) && outcome_output(out, outcome))
}

/// `out` is the skill output of `outcome` whose exit code fits: the
/// adapter's status, its raw stdout (or its output as JSON text) and
/// stderr, its exit code, the call's duration, and the response metadata
/// with the adapter's identity and status recorded.
pub open spec fn outcome_output(out: SkillOutput, outcome: ExternalAdapterProcessOutcome) -> bool {
    &&& (out.status == InvocationStatus::Success) == (outcome.response.status == ExternalAdapterStatus::Completed)
    &&& out.stdout@ == (match outcome.response.stdout {
        Some(s) => s@,
        None => match outcome.response.output {
            Some(o) => json_text(JsonData::Object(o.view())),
            None => Seq::empty(),
        },
    })
    &&& out.stderr@ == (match outcome.response.stderr {
        Some(s) => s@,
        None => Seq::empty(),
    })
    &&& out.exit_code == (match outcome.response.exit_code {
        Some(Some(c)) => Some(c as i32),
        _ => None,
    })
    &&& out.duration_ms == outcome.duration_ms
    &&& out.metadata.view() == outcome_metadata(outcome)
}

/// Resolves the manifest, builds the invocation, has the supervisor run
/// it and reads the skill output off the outcome; the first failure ends
/// the run.
pub fn invoke_external_adapter_skill<R: ExternalAdapterManifestResolver, S: ExternalAdapterSupervisor>(
    request: &SkillInvocation,
    manifest_resolver: &R,
    supervisor: &S,
) -> (r: Result<SkillOutput, ExternalAdapterSkillAdapterError>)
    ensures
        exists|m: Result<ExternalAdapterManifest, ExternalAdapterSkillAdapterError>, inv: ExternalAdapterInvocation,
            o: Option<Result<ExternalAdapterProcessOutcome, ExternalAdapterSupervisorError>>|
            #[trigger] external_run_fits(r, *request, *manifest_resolver, *supervisor, m, inv, o),
{
    let resolved = manifest_resolver.resolve_manifest(request);
    let ghost res = resolved;
    let manifest = match resolved {
        Ok(m) => m,
        Err(e) => {
            assert(external_run_fits(Err(e), *request, *manifest_resolver, *supervisor, res, arbitrary(), None));
            return Err(e);
        },
    };
    let invocation = match skill_invocation_contract(
        request.skill_name.as_str(),
        &request.source,
        &request.inputs,
        &request.resolved_inputs,
        request.skill_directory.as_str(),
        &request.env,
        &manifest,
    ) {
        Ok(i) => i,
        Err(e) => {
            assert(external_run_fits(Err(e), *request, *manifest_resolver, *supervisor, res, arbitrary(), None));
            return Err(e);
        },
    };
    let supervised = supervisor.invoke_external_adapter(&manifest, &invocation);
    let ghost sup = supervised;
    let r = match supervised {
        Err(e) => Err(ExternalAdapterSkillAdapterError::Supervisor(e)),
        Ok(outcome) => skill_output_from_outcome(outcome),
    };
    assert(external_run_fits(r, *request, *manifest_resolver, *supervisor, res, invocation, Some(sup)));
    r
}

/// Runs skills whose source is an external adapter.
pub struct ExternalAdapterSkillAdapter<R, S> {
    manifest_resolver: R,
    supervisor: S,
}

impl<R: ExternalAdapterManifestResolver, S: ExternalAdapterSupervisor> ExternalAdapterSkillAdapter<R, S> {
    pub closed spec fn resolver(&self) -> R {
        self.manifest_resolver
    }

    pub closed spec fn held_supervisor(&self) -> S {
        self.supervisor
    }

    pub fn new(manifest_resolver: R, supervisor: S) -> (r: Self)
        ensures
            r.resolver() == manifest_resolver,
            r.held_supervisor() == supervisor,
    {
        ExternalAdapterSkillAdapter { manifest_resolver, supervisor }
    }

    pub fn adapter_type(&self) -> (r: &'static str)
        ensures
            r@ == "external-adapter"@,
    {
        proof {
            reveal_strlit("external-adapter");
        }
        "external-adapter"
    }

    /// Runs an external-adapter source; any other source is refused. A
    /// failed run reports the skill and the failure's message.
    pub fn invoke(&self, request: SkillInvocation) -> (r: Result<SkillOutput, RuntimeError>)
        ensures
            request.source.source_type != SourceKind::ExternalAdapter ==> (r matches Err(RuntimeError::UnsupportedAdapter { adapter_type })
                && adapter_type@ == source_kind_name(request.source.source_type)),
            request.source.source_type == SourceKind::ExternalAdapter ==> exists|inner: Result<SkillOutput, ExternalAdapterSkillAdapterError>,
                m: Result<ExternalAdapterManifest, ExternalAdapterSkillAdapterError>, inv: ExternalAdapterInvocation,
                o: Option<Result<ExternalAdapterProcessOutcome, ExternalAdapterSupervisorError>>|
                #![trigger external_run_fits(inner, request, self.resolver(), self.held_supervisor(), m, inv, o)]
                external_run_fits(inner, request, self.resolver(), self.held_supervisor(), m, inv, o) && match inner {
                    Ok(out) => r == Ok::<SkillOutput, RuntimeError>(out),
                    Err(e) => r matches Err(RuntimeError::SkillFailed { skill_name, message })
                        && skill_name@ == request.skill_name@ && message@ == skill_adapter_error_text(e),
                },
    {
        match request.source.source_type {
            SourceKind::ExternalAdapter => {},
            other => {
                return Err(RuntimeError::UnsupportedAdapter { adapter_type: other.as_str().to_owned() });
            },
        }
        let inner = invoke_external_adapter_skill(&request, &self.manifest_resolver, &self.supervisor);
        proof {
            let (m, inv, o) = choose|m: Result<ExternalAdapterManifest, ExternalAdapterSkillAdapterError>,
                inv: ExternalAdapterInvocation, o: Option<Result<ExternalAdapterProcessOutcome, ExternalAdapterSupervisorError>>|
                #[trigger] external_run_fits(inner, request, self.manifest_resolver, self.supervisor, m, inv, o);
            assert(external_run_fits(inner, request, self.resolver(), self.held_supervisor(), m, inv, o));
        }
        match inner {
            Ok(out) => Ok(out),
            Err(e) => Err(RuntimeError::SkillFailed { skill_name: request.skill_name.clone(), message: e.message() }),
        }
    }
}

} // verus!
