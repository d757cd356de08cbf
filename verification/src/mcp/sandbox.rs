//! The sandbox and source metadata that an MCP tool call records: what the
//! skill declared, how the local host enforces it, and content hashes of the
//! server command.
use vstd::prelude::*;
use sha2::Digest;
use crate::json::{JsonData, JsonObject, JsonValue, lemma_entries_data, lemma_seq_data, seq_data};
use crate::json_text::json_text;
use crate::mcp::protocol::{jstr, obj1, obj2, sv};
use crate::skill::types::{SkillMcpServer, SkillSandbox, SandboxProfile, cwd_policy_name, sandbox_profile_name};
use crate::text::{concat3, str_eq};

verus! {

pub const UNRESTRICTED_PROFILE: &'static str = "unrestricted-local-dev";

/// The environment variables a sandboxed server keeps when the skill names
/// none.
pub open spec fn default_env_allowlist() -> Seq<Seq<char>> {
    seq!["PATH"@, "HOME"@, "TMPDIR"@, "TMP"@, "TEMP"@, "SystemRoot"@, "WINDIR"@, "COMSPEC"@, "PATHEXT"@]
}

pub fn default_env_allowlist_values() -> (r: Vec<String>)
    ensures
        r@.map_values(|s: String| s@) == default_env_allowlist(),
{
    let r = vec![
        "PATH".to_owned(),
        "HOME".to_owned(),
        "TMPDIR".to_owned(),
        "TMP".to_owned(),
        "TEMP".to_owned(),
        "SystemRoot".to_owned(),
        "WINDIR".to_owned(),
        "COMSPEC".to_owned(),
        "PATHEXT".to_owned(),
    ];
    assert(r@.map_values(|s: String| s@) =~= default_env_allowlist());
    r
}

/// What the metadata reads from a declared sandbox, with its defaults.
#[derive(Clone, Debug, PartialEq)]
pub struct McpSandboxMetadataConfig {
    pub profile: String,
    pub cwd_policy: String,
    pub env_allowlist: Option<Vec<String>>,
    pub approved_escalation: bool,
    pub require_enforcement: bool,
    pub network: bool,
    pub writable_paths: Vec<String>,
    pub inherited_ambient: bool,
}

pub open spec fn strings_view(v: Seq<String>) -> Seq<Seq<char>> {
    v.map_values(|s: String| s@)
}

pub open spec fn opt_strings_view(v: Option<Vec<String>>) -> Option<Seq<Seq<char>>> {
    match v {
        Some(x) => Some(strings_view(x@)),
        None => None,
    }
}

pub open spec fn config_fits(c: McpSandboxMetadataConfig, sandbox: Option<SkillSandbox>) -> bool {
    &&& c.profile@ == (match sandbox {
        Some(s) => sandbox_profile_name(s.profile),
        None => "readonly"@,
    })
    &&& c.cwd_policy@ == (match sandbox {
        Some(s) => match s.cwd_policy {
            Some(p) => cwd_policy_name(p),
            None => "skill-directory"@,
        },
        None => "skill-directory"@,
    })
    &&& opt_strings_view(c.env_allowlist) == (match sandbox {
        Some(s) => opt_strings_view(s.env_allowlist),
        None => None,
    })
    &&& c.approved_escalation == (match sandbox {
        Some(s) => s.approved_escalation == Some(true),
        None => false,
    })
    &&& c.require_enforcement == (match sandbox {
        Some(s) => s.require_enforcement == Some(true),
        None => false,
    })
    &&& c.network == (match sandbox {
        Some(s) => s.network == Some(true),
        None => false,
    })
    &&& strings_view(c.writable_paths@) == (match sandbox {
        Some(s) => strings_view(s.writable_paths@),
        None => Seq::empty(),
    })
    &&& c.inherited_ambient == (c.env_allowlist is None && c.profile@ == UNRESTRICTED_PROFILE@
        && c.approved_escalation)
}

fn copy_strings(v: &Vec<String>) -> (r: Vec<String>)
    ensures
        strings_view(r@) == strings_view(v@),
{
    let mut out: Vec<String> = Vec::new();
    let mut i: usize = 0;
    while i < v.len()
        invariant
            i <= v@.len(),
            out@.len() == i,
            forall|j: int| 0 <= j < i ==> #[trigger] out@[j]@ == v@[j]@,
        decreases v@.len() - i,
    {
        out.push(v[i].clone());
        i += 1;
    }
    assert(strings_view(out@) =~= strings_view(v@));
    out
}

/// The declared sandbox read with its
/// defaults (read-only profile, skill-directory cwd, nothing approved).
pub fn mcp_sandbox_metadata_config(sandbox: Option<&SkillSandbox>) -> (c: McpSandboxMetadataConfig)
    ensures
        config_fits(c, match sandbox {
            Some(s) => Some(*s),
            None => None,
        }),
{
    proof {
        reveal_strlit("unrestricted-local-dev");
        reveal_strlit("readonly");
    }
    match sandbox {
        None => {
            let writable_paths: Vec<String> = Vec::new();
            assert(strings_view(writable_paths@) =~= Seq::empty());
            assert("readonly"@ != UNRESTRICTED_PROFILE@) by {
                assert("readonly"@.len() != UNRESTRICTED_PROFILE@.len());
            }
            let c = McpSandboxMetadataConfig {
                profile: "readonly".to_owned(),
                cwd_policy: "skill-directory".to_owned(),
                env_allowlist: None,
                approved_escalation: false,
                require_enforcement: false,
                network: false,
                writable_paths,
                inherited_ambient: false,
            };
            c
        },
        Some(s) => {
            let approved_escalation = match s.approved_escalation {
                Some(b) => b,
                None => false,
            };
            let env_allowlist = match &s.env_allowlist {
                Some(v) => Some(copy_strings(v)),
                None => None,
            };
            let profile = s.profile.as_str();
            let unrestricted = str_eq(profile, UNRESTRICTED_PROFILE);
            let inherited_ambient = env_allowlist.is_none() && unrestricted && approved_escalation;
            McpSandboxMetadataConfig {
                profile: profile.to_owned(),
                cwd_policy: match s.cwd_policy {
                    Some(p) => p.as_str().to_owned(),
                    None => "skill-directory".to_owned(),
                },
                env_allowlist,
                approved_escalation,
                require_enforcement: match s.require_enforcement {
                    Some(b) => b,
                    None => false,
                },
                network: match s.network {
                    Some(b) => b,
                    None => false,
                },
                writable_paths: copy_strings(&s.writable_paths),
                inherited_ambient,
            }
        },
    }
}

pub open spec fn str_array(v: Seq<Seq<char>>) -> JsonData {
    JsonData::Array(v.map_values(|s: Seq<char>| JsonData::Str(s)))
}

fn string_array(v: &Vec<String>) -> (r: JsonValue)
    ensures
        r.data() == str_array(strings_view(v@)),
{
    let mut items: Vec<JsonValue> = Vec::new();
    let mut i: usize = 0;
    while i < v.len()
        invariant
            i <= v@.len(),
            items@.len() == i,
            forall|j: int| 0 <= j < i ==> #[trigger] items@[j].data() == JsonData::Str(v@[j]@),
        decreases v@.len() - i,
    {
        items.push(JsonValue::String(v[i].clone()));
        i += 1;
    }
    proof {
        lemma_seq_data(items@);
        assert(seq_data(items@) =~= strings_view(v@).map_values(|s: Seq<char>| JsonData::Str(s)));
    }
    JsonValue::Array(items)
}

/// The writable paths, as declared.
pub fn mcp_sandbox_writable_paths_metadata(writable_paths: &Vec<String>) -> (r: JsonValue)
    ensures
        r.data() == str_array(strings_view(writable_paths@)),
{
    string_array(writable_paths)
}

pub open spec fn approval_data(c: McpSandboxMetadataConfig) -> Seq<(Seq<char>, JsonData)> {
    seq![
        ("approved"@, JsonData::Bool(c.approved_escalation)),
        ("required"@, JsonData::Bool(c.profile@ == UNRESTRICTED_PROFILE@)),
    ]
}

/// Whether the profile needs an approved
/// escalation, and whether it has one.
pub fn mcp_sandbox_approval_metadata(config: &McpSandboxMetadataConfig) -> (r: JsonObject)
    ensures
        r.view() == approval_data(*config),
{
    let required = str_eq(config.profile.as_str(), UNRESTRICTED_PROFILE);
    obj2("approved", JsonValue::Bool(config.approved_escalation), "required", JsonValue::Bool(required))
}

pub open spec fn env_data(allowlist: Option<Seq<Seq<char>>>, inherited_ambient: bool) -> Seq<(Seq<char>, JsonData)> {
    if inherited_ambient {
        seq![("mode"@, sv("ambient-inherited"@))]
    } else {
        match allowlist {
            Some(a) => seq![("allowlist"@, str_array(a)), ("mode"@, sv("allowlist"@))],
            None => seq![("allowlist"@, str_array(default_env_allowlist())), ("mode"@, sv("default-allowlist"@))],
        }
    }
}

/// The environment the server sees: the
/// host's, where an approved unrestricted profile names no allowlist;
/// otherwise the declared or the default allowlist.
pub fn mcp_sandbox_env_metadata(env_allowlist: Option<&Vec<String>>, inherited_ambient: bool) -> (r: JsonObject)
    ensures
        r.view() == env_data(match env_allowlist {
            Some(a) => Some(strings_view(a@)),
            None => None,
        }, inherited_ambient),
{
    if inherited_ambient {
        return obj1("mode", jstr("ambient-inherited"));
    }
    match env_allowlist {
        Some(a) => obj2("allowlist", string_array(a), "mode", jstr("allowlist")),
        None => {
            let d = default_env_allowlist_values();
            obj2("allowlist", string_array(&d), "mode", jstr("default-allowlist"))
        },
    }
}

pub open spec fn enforcement_word(profile: Seq<char>) -> Seq<char> {
    if profile == UNRESTRICTED_PROFILE@ {
        "host-ambient"@
    } else {
        "not-enforced-local"@
    }
}

pub open spec fn network_data(profile: Seq<char>, network: bool) -> Seq<(Seq<char>, JsonData)> {
    seq![("declared"@, JsonData::Bool(network)), ("enforcement"@, sv(enforcement_word(profile)))]
}

fn enforcement(profile: &str) -> (r: &'static str)
    ensures
        r@ == enforcement_word(profile@),
{
    if str_eq(profile, UNRESTRICTED_PROFILE) {
        "host-ambient"
    } else {
        "not-enforced-local"
    }
}

/// The declared network access, and that
/// the local host does not enforce it.
pub fn mcp_sandbox_network_metadata(profile: &str, network: bool) -> (r: JsonObject)
    ensures
        r.view() == network_data(profile@, network),
{
    obj2("declared", JsonValue::Bool(network), "enforcement", jstr(enforcement(profile)))
}

pub open spec fn filesystem_data(profile: Seq<char>) -> Seq<(Seq<char>, JsonData)> {
    seq![
        ("enforcement"@, sv(enforcement_word(profile))),
        ("private_tmp"@, JsonData::Bool(false)),
        ("readonly_paths"@, JsonData::Bool(profile != UNRESTRICTED_PROFILE@)),
        ("writable_paths_enforced"@, JsonData::Bool(false)),
    ]
}

/// How the filesystem is (not) confined.
pub fn mcp_sandbox_filesystem_metadata(profile: &str) -> (r: JsonObject)
    ensures
        r.view() == filesystem_data(profile@),
{
    let unrestricted = str_eq(profile, UNRESTRICTED_PROFILE);
    let r = JsonObject {
        entries: vec![
            ("enforcement".to_owned(), jstr(enforcement(profile))),
            ("private_tmp".to_owned(), JsonValue::Bool(false)),
            ("readonly_paths".to_owned(), JsonValue::Bool(!unrestricted)),
            ("writable_paths_enforced".to_owned(), JsonValue::Bool(false)),
        ],
    };
    proof {
        lemma_entries_data(r.entries@);
        assert(r.view() =~= filesystem_data(profile@));
    }
    r
}

pub open spec fn runtime_data(profile: Seq<char>) -> Seq<(Seq<char>, JsonData)> {
    if profile == UNRESTRICTED_PROFILE@ {
        seq![("enforcer"@, sv("direct"@))]
    } else {
        seq![
            ("enforcer"@, sv("declared-policy-only"@)),
            ("reason"@, sv("local sandbox profile \u{27}"@ + profile
                + "\u{27} requires Linux bubblewrap support for filesystem and network enforcement"@)),
        ]
    }
}

/// What enforces the sandbox: nothing but
/// the host for an unrestricted profile, the declared policy otherwise.
pub fn mcp_sandbox_runtime_metadata(profile: &str) -> (r: JsonObject)
    ensures
        r.view() == runtime_data(profile@),
{
    if str_eq(profile, UNRESTRICTED_PROFILE) {
        return obj1("enforcer", jstr("direct"));
    }
    let reason = concat3(
        "local sandbox profile \u{27}",
        profile,
        "\u{27} requires Linux bubblewrap support for filesystem and network enforcement",
    );
    obj2("enforcer", jstr("declared-policy-only"), "reason", JsonValue::String(reason))
}

pub open spec fn process_sandbox_data(
    c: McpSandboxMetadataConfig,
    cwd: Seq<char>,
    workspace_root: Seq<char>,
) -> Seq<(Seq<char>, JsonData)> {
    seq![
        ("approval"@, JsonData::Object(approval_data(c))),
        ("cwd"@, sv(cwd)),
        ("cwd_policy"@, sv(c.cwd_policy@)),
        ("env"@, JsonData::Object(env_data(opt_strings_view(c.env_allowlist), c.inherited_ambient))),
        ("filesystem"@, JsonData::Object(filesystem_data(c.profile@))),
        ("network"@, JsonData::Object(network_data(c.profile@, c.network))),
        ("profile"@, sv(c.profile@)),
        ("require_enforcement"@, JsonData::Bool(c.require_enforcement)),
        ("runtime"@, JsonData::Object(runtime_data(c.profile@))),
        ("workspace_root"@, sv(workspace_root)),
        ("writable_paths"@, str_array(strings_view(c.writable_paths@))),
    ]
}

/// The sandbox record of a call, from the
/// declared sandbox, the directory the server runs in and the workspace
/// root (both as the host resolved them).
pub fn mcp_process_sandbox_metadata(sandbox: Option<&SkillSandbox>, plan_cwd: &str, workspace_root: &str) -> (r: JsonObject)
    ensures
        exists|c: McpSandboxMetadataConfig|
            config_fits(c, match sandbox {
                Some(s) => Some(*s),
                None => None,
            }) && #[trigger] r.view() == process_sandbox_data(c, plan_cwd@, workspace_root@),
{
    let config = mcp_sandbox_metadata_config(sandbox);
    let approval = mcp_sandbox_approval_metadata(&config);
    let env = mcp_sandbox_env_metadata(config.env_allowlist.as_ref(), config.inherited_ambient);
    let filesystem = mcp_sandbox_filesystem_metadata(config.profile.as_str());
    let network = mcp_sandbox_network_metadata(config.profile.as_str(), config.network);
    let runtime = mcp_sandbox_runtime_metadata(config.profile.as_str());
    let writable = mcp_sandbox_writable_paths_metadata(&config.writable_paths);
    let r = JsonObject {
        entries: vec![
            ("approval".to_owned(), JsonValue::Object(approval)),
            ("cwd".to_owned(), JsonValue::String(plan_cwd.to_owned())),
            ("cwd_policy".to_owned(), JsonValue::String(config.cwd_policy.clone())),
            ("env".to_owned(), JsonValue::Object(env)),
            ("filesystem".to_owned(), JsonValue::Object(filesystem)),
            ("network".to_owned(), JsonValue::Object(network)),
            ("profile".to_owned(), JsonValue::String(config.profile.clone())),
            ("require_enforcement".to_owned(), JsonValue::Bool(config.require_enforcement)),
            ("runtime".to_owned(), JsonValue::Object(runtime)),
            ("workspace_root".to_owned(), JsonValue::String(workspace_root.to_owned())),
            ("writable_paths".to_owned(), writable),
        ],
    };
    proof {
        lemma_entries_data(r.entries@);
        assert(r.view() =~= process_sandbox_data(config, plan_cwd@, workspace_root@));
    }
    r
}

// ---------------------------------------------------------------------
// Content hashes of the server command.
// ---------------------------------------------------------------------

/// The SHA-256 digest of a byte string.
pub uninterp spec fn sha256_digest(bytes: Seq<u8>) -> Seq<u8>;

/// `sha2::Sha256::digest`: the 32-byte SHA-256 digest of `bytes`.
#[verifier::external_body]
fn sha256(bytes: &[u8]) -> (d: Vec<u8>)
    ensures
        d@ == sha256_digest(bytes@),
        d@.len() == 32,
{
    sha2::Sha256::digest(bytes).to_vec()
}

/// The compact JSON text of an optional list of strings: `null` for none,
/// else the list as a JSON array of strings.
pub open spec fn json_strings_text(args: Option<Seq<Seq<char>>>) -> Seq<char> {
    match args {
        None => "null"@,
        Some(a) => json_text(JsonData::Array(a.map_values(|s: Seq<char>| JsonData::Str(s)))),
    }
}

/// `serde_json::to_string` on an optional list of strings, which cannot
/// fail for such a value. The contract claims the compact text
/// serde_json writes: `null` for `None`, else `[`, the strings quoted with
/// JSON's escapes (`\"`, `\\`, `\b`, `\f`, `\n`, `\r`, `\t`, other control
/// characters as `\u00xx`), separated by commas, and `]`.
#[verifier::external_body]
fn strings_json_text(args: Option<&Vec<String>>) -> (t: String)
    ensures
        t@ == json_strings_text(match args {
            Some(a) => Some(strings_view(a@)),
            None => None,
        }),
{
    serde_json::to_string(&args).unwrap_or_default()
}

pub open spec fn hex_digit(n: u8) -> char
    recommends
        n < 16,
{
    if n < 10 {
        (('0' as u8) + n) as char
    } else {
        (('a' as u8) + n - 10) as char
    }
}

/// Lower-case hexadecimal, two digits a byte.
pub open spec fn lower_hex(bytes: Seq<u8>) -> Seq<char>
    decreases bytes.len(),
{
    if bytes.len() == 0 {
        Seq::empty()
    } else {
        lower_hex(bytes.drop_last()) + seq![hex_digit(bytes.last() / 16), hex_digit(bytes.last() % 16)]
    }
}

fn hex_digit_exec(n: u8) -> (c: char)
    requires
        n < 16,
    ensures
        c == hex_digit(n),
{
    if n < 10 {
        ((48u8 + n) as char)
    } else {
        ((97u8 + n - 10) as char)
    }
}

/// The SHA-256 digest of the bytes, in lower-case hex.
pub fn sha256_hex(bytes: &[u8]) -> (s: String)
    ensures
        s@ == lower_hex(sha256_digest(bytes@)),
{
    let d = sha256(bytes);
    let mut out: Vec<char> = Vec::new();
    let mut i: usize = 0;
    while i < d.len()
        invariant
            i <= d@.len(),
            out@ == lower_hex(d@.take(i as int)),
        decreases d@.len() - i,
    {
        let b = d[i];
        out.push(hex_digit_exec(b / 16));
        out.push(hex_digit_exec(b % 16));
        proof {
            assert(d@.take(i + 1).drop_last() =~= d@.take(i as int));
            assert(d@.take(i + 1).last() == b);
        }
        i += 1;
    }
    proof {
        assert(d@.take(d@.len() as int) =~= d@);
    }
    crate::text::string_from_chars(out.as_slice())
}

pub open spec fn source_mcp_data(
    tool: Option<Seq<char>>,
    server: Option<SkillMcpServer>,
) -> Seq<(Seq<char>, JsonData)> {
    seq![
        ("server_args_hash"@, sv(lower_hex(sha256_digest(vstd::utf8::encode_utf8(json_strings_text(match server {
            Some(s) => Some(strings_view(s.args@)),
            None => None,
        })))))),
        ("server_command_hash"@, sv(lower_hex(sha256_digest(match server {
            Some(s) => vstd::utf8::encode_utf8(s.command@),
            None => Seq::empty(),
        })))),
        ("tool"@, sv(match tool {
            Some(t) => t,
            None => Seq::empty(),
        })),
    ]
}

pub open spec fn metadata_data(
    tool: Option<Seq<char>>,
    server: Option<SkillMcpServer>,
    sandbox: Option<Seq<(Seq<char>, JsonData)>>,
) -> Seq<(Seq<char>, JsonData)> {
    let mcp = ("mcp"@, JsonData::Object(source_mcp_data(tool, server)));
    match sandbox {
        Some(s) => if s.len() > 0 {
            seq![mcp, ("sandbox"@, JsonData::Object(s))]
        } else {
            seq![mcp]
        },
        None => seq![mcp],
    }
}

/// The metadata of an MCP call: the tool, hashes of the
/// server command and of its arguments as JSON, and the sandbox record
/// where there is a non-empty one.
pub fn metadata_for(tool: &Option<String>, server: Option<&SkillMcpServer>, sandbox: Option<JsonObject>) -> (r: JsonObject)
    ensures
        r.view() == metadata_data(crate::reference::opt_str(*tool), match server {
            Some(s) => Some(*s),
            None => None,
        }, match sandbox {
            Some(s) => Some(s.view()),
            None => None,
        }),
{
    let tool_name = match tool {
        Some(t) => t.clone(),
        None => String::new(),
    };
    let command_hash = match server {
        Some(s) => sha256_hex(s.command.as_str().as_bytes()),
        None => {
            let empty: Vec<u8> = Vec::new();
            sha256_hex(empty.as_slice())
        },
    };
    let args_text = strings_json_text(match server {
        Some(s) => Some(&s.args),
        None => None,
    });
    let args_hash = sha256_hex(args_text.as_str().as_bytes());
    let mcp = JsonObject {
        entries: vec![
            ("server_args_hash".to_owned(), JsonValue::String(args_hash)),
            ("server_command_hash".to_owned(), JsonValue::String(command_hash)),
            ("tool".to_owned(), JsonValue::String(tool_name)),
        ],
    };
    proof {
        lemma_entries_data(mcp.entries@);
        assert(mcp.view() =~= source_mcp_data(crate::reference::opt_str(*tool), match server {
            Some(s) => Some(*s),
            None => None,
        }));
    }
    match sandbox {
        Some(s) => {
            if s.is_empty() {
                obj1("mcp", JsonValue::Object(mcp))
            } else {
                obj2("mcp", JsonValue::Object(mcp), "sandbox", JsonValue::Object(s))
            }
        },
        None => obj1("mcp", JsonValue::Object(mcp)),
    }
}

} // verus!
