//! The registry command: which registry a request goes to, and the text
//! the command prints.
use vstd::prelude::*;
use crate::text::{chars_of, concat, concat3, decimal, lead_count, starts_with, starts_with_str,
    str_eq, string_from_chars, tail_count, u64_decimal};

verus! {

#[derive(Clone, Copy, Debug, PartialEq, Eq, Structural)]
pub enum RegistryAction {
    Search,
    Read,
    Resolve,
    Install,
    Publish,
}

/// How far a skill's author is trusted.
#[derive(Clone, Copy, Debug, PartialEq, Eq, Structural)]
pub enum TrustTier {
    FirstParty,
    Verified,
    Community,
}

/// One registry command.
#[derive(Clone, Debug, PartialEq)]
pub struct RegistryPlan {
    pub action: RegistryAction,
    pub subject: String,
    pub registry: Option<String>,
    pub registry_dir: Option<String>,
    pub version: Option<String>,
    pub expected_digest: Option<String>,
    pub destination: Option<String>,
    pub installation_id: Option<String>,
    pub owner: Option<String>,
    pub profile: Option<String>,
    pub trust_tier: Option<TrustTier>,
    pub limit: Option<usize>,
    pub upsert: bool,
    pub json: bool,
}

#[derive(Clone, Copy, Debug, PartialEq, Eq, Structural)]
pub enum LocalRegistrySourceKind {
    Local,
    File,
}

/// The registry a command goes to.
#[derive(Clone, Debug, PartialEq)]
pub enum RegistryTarget {
    Remote { registry_url: String },
    Local { registry_path: String, registry_url: Option<String>, source_kind: LocalRegistrySourceKind },
}

/// The local paths a command may name, each already resolved against the
/// environment and working directory: the `--registry` value (with a
/// `file://` prefix dropped), the `--registry-dir` value, the
/// `RUNX_REGISTRY_DIR` value, and the registry under the runx home.
#[derive(Clone, Debug, PartialEq)]
pub struct RegistryPaths {
    pub registry: Option<String>,
    pub registry_dir: Option<String>,
    pub env_registry_dir: Option<String>,
    pub home_registry: String,
}

pub enum TargetView {
    Remote(Seq<char>),
    Local(Seq<char>, Option<Seq<char>>, LocalRegistrySourceKind),
}

pub open spec fn target_view(t: RegistryTarget) -> TargetView {
    match t {
        RegistryTarget::Remote { registry_url } => TargetView::Remote(registry_url@),
        RegistryTarget::Local { registry_path, registry_url, source_kind } =>
            TargetView::Local(registry_path@, crate::reference::opt_str(registry_url), source_kind),
    }
}

/// A registry URL served over HTTP(S).
pub open spec fn is_remote(v: Seq<char>) -> bool {
    starts_with(v, "https://"@) || starts_with(v, "http://"@)
}

pub fn is_remote_registry_url(value: &str) -> (b: bool)
    ensures
        b == is_remote(value@),
{
    starts_with_str(value, "https://") || starts_with_str(value, "http://")
}

/// The value of `key` in an environment (the first binding).
pub open spec fn env_find(env: Seq<(String, String)>, key: Seq<char>) -> Option<Seq<char>>
    decreases env.len(),
{
    if env.len() == 0 {
        None
    } else if env[0].0@ == key {
        Some(env[0].1@)
    } else {
        env_find(env.drop_first(), key)
    }
}

pub fn env_get(env: &Vec<(String, String)>, key: &str) -> (r: Option<String>)
    ensures
        crate::reference::opt_str(r) == env_find(env@, key@),
{
    let mut i: usize = 0;
    proof {
        assert(env@.skip(0) =~= env@);
    }
    while i < env.len()
        invariant
            i <= env@.len(),
            env_find(env@, key@) == env_find(env@.skip(i as int), key@),
        decreases env@.len() - i,
    {
        proof {
            assert(env@.skip(i as int).drop_first() =~= env@.skip(i + 1));
            assert(env@.skip(i as int)[0] == env@[i as int]);
        }
        if str_eq(env[i].0.as_str(), key) {
            return Some(env[i].1.clone());
        }
        i += 1;
    }
    None
}

pub open spec fn remote_only(v: Option<Seq<char>>) -> Option<Seq<char>> {
    match v {
        Some(s) => if is_remote(s) {
            Some(s)
        } else {
            None
        },
        None => None,
    }
}

fn remote_only_exec(v: Option<String>) -> (r: Option<String>)
    ensures
        crate::reference::opt_str(r) == remote_only(crate::reference::opt_str(v)),
{
    match v {
        Some(s) => if is_remote_registry_url(s.as_str()) {
            Some(s)
        } else {
            None
        },
        None => None,
    }
}

/// Where a command goes: an HTTP(S) `--registry` is remote, any other
/// `--registry` local (a `file://` one of the file kind); then
/// `--registry-dir`, then `RUNX_REGISTRY_DIR`, then a remote
/// `RUNX_REGISTRY_URL`; else the registry under the runx home. A local
/// registry keeps the remote URL configured beside it.
pub open spec fn target_spec(
    registry: Option<Seq<char>>,
    has_registry_dir: bool,
    paths: RegistryPaths,
    env: Seq<(String, String)>,
) -> TargetView {
    let env_url = env_find(env, "RUNX_REGISTRY_URL"@);
    let configured = match registry {
        Some(r) => Some(r),
        None => env_url,
    };
    match registry {
        Some(r) => if is_remote(r) {
            TargetView::Remote(r)
        } else {
            TargetView::Local(
                match paths.registry {
                    Some(p) => p@,
                    None => r,
                },
                remote_only(env_url),
                if starts_with(r, "file://"@) {
                    LocalRegistrySourceKind::File
                } else {
                    LocalRegistrySourceKind::Local
                },
            )
        },
        None => if has_registry_dir {
            TargetView::Local(
                match paths.registry_dir {
                    Some(p) => p@,
                    None => ""@,
                },
                remote_only(configured),
                LocalRegistrySourceKind::Local,
            )
        } else if env_find(env, "RUNX_REGISTRY_DIR"@) is Some {
            TargetView::Local(
                match paths.env_registry_dir {
                    Some(p) => p@,
                    None => ""@,
                },
                remote_only(configured),
                LocalRegistrySourceKind::Local,
            )
        } else if remote_only(configured) is Some {
            TargetView::Remote(remote_only(configured).unwrap())
        } else {
            TargetView::Local(paths.home_registry@, configured, LocalRegistrySourceKind::Local)
        },
    }
}

fn path_or(p: &Option<String>, fallback: &str) -> (r: String)
    ensures
        r@ == match p {
            Some(x) => x@,
            None => fallback@,
        },
{
    match p {
        Some(x) => x.clone(),
        None => fallback.to_owned(),
    }
}

pub fn resolve_registry_target(plan: &RegistryPlan, env: &Vec<(String, String)>, paths: &RegistryPaths) -> (r: RegistryTarget)
    ensures
        target_view(r) == target_spec(crate::reference::opt_str(plan.registry), plan.registry_dir is Some, *paths, env@),
{
    let env_url = env_get(env, "RUNX_REGISTRY_URL");
    let configured = match &plan.registry {
        Some(r) => Some(r.clone()),
        None => crate::reference::copy_opt_string(&env_url),
    };
    match &plan.registry {
        Some(registry) => {
            if is_remote_registry_url(registry.as_str()) {
                return RegistryTarget::Remote { registry_url: registry.clone() };
            }
            RegistryTarget::Local {
                registry_path: path_or(&paths.registry, registry.as_str()),
                registry_url: remote_only_exec(env_url),
                source_kind: if starts_with_str(registry.as_str(), "file://") {
                    LocalRegistrySourceKind::File
                } else {
                    LocalRegistrySourceKind::Local
                },
            }
        },
        None => {
            if plan.registry_dir.is_some() {
                return RegistryTarget::Local {
                    registry_path: path_or(&paths.registry_dir, ""),
                    registry_url: remote_only_exec(configured),
                    source_kind: LocalRegistrySourceKind::Local,
                };
            }
            if env_get(env, "RUNX_REGISTRY_DIR").is_some() {
                return RegistryTarget::Local {
                    registry_path: path_or(&paths.env_registry_dir, ""),
                    registry_url: remote_only_exec(configured),
                    source_kind: LocalRegistrySourceKind::Local,
                };
            }
            let remote = remote_only_exec(crate::reference::copy_opt_string(&configured));
            match remote {
                Some(url) => RegistryTarget::Remote { registry_url: url },
                None => RegistryTarget::Local {
                    registry_path: paths.home_registry.clone(),
                    registry_url: configured,
                    source_kind: LocalRegistrySourceKind::Local,
                },
            }
        },
    }
}

impl RegistryTarget {
    /// The source a command reports: `remote`, `local` or `file`.
    pub fn label(&self) -> (r: &'static str)
        ensures
            r@ == match *self {
                RegistryTarget::Remote { .. } => "remote"@,
                RegistryTarget::Local { source_kind, .. } => match source_kind {
                    LocalRegistrySourceKind::Local => "local"@,
                    LocalRegistrySourceKind::File => "file"@,
                },
            },
    {
        match self {
            RegistryTarget::Remote { .. } => "remote",
            RegistryTarget::Local { source_kind, .. } => match source_kind {
                LocalRegistrySourceKind::Local => "local",
                LocalRegistrySourceKind::File => "file",
            },
        }
    }
}

// ---------------------------------------------------------------------
// Canonical registry URLs.
// ---------------------------------------------------------------------

/// The first position of `c` in `s`.
pub open spec fn first_pos(s: Seq<char>, c: char) -> Option<int> {
    if exists|i: int| 0 <= i < s.len() && s[i] == c {
        Some(choose|i: int| 0 <= i < s.len() && s[i] == c && forall|j: int| 0 <= j < i ==> s[j] != c)
    } else {
        None
    }
}

/// The last position of `c` in `s`.
pub open spec fn last_pos(s: Seq<char>, c: char) -> Option<int> {
    if exists|i: int| 0 <= i < s.len() && s[i] == c {
        Some(choose|i: int| 0 <= i < s.len() && s[i] == c && forall|j: int| i < j < s.len() ==> s[j] != c)
    } else {
        None
    }
}

/// `s` up to the first `c`, or all of it.
pub open spec fn before(s: Seq<char>, c: char) -> Seq<char> {
    match first_pos(s, c) {
        Some(i) => s.take(i),
        None => s,
    }
}

/// `s` without its trailing slashes.
pub open spec fn trim_slashes_end(s: Seq<char>) -> Seq<char> {
    s.take(s.len() - tail_count(s, |c: char| c == '/'))
}

/// The position of the first `://`.
pub open spec fn scheme_sep(s: Seq<char>) -> Option<int> {
    crate::mcp::template::find_from(s, "://"@, 0)
}

/// The authority of the part after `://`: up to the first `/`, without
/// credentials (everything up to the last `@`).
pub open spec fn authority_of(rest: Seq<char>) -> Seq<char> {
    let a = before(rest, '/');
    match last_pos(a, '@') {
        Some(i) => a.skip(i + 1),
        None => a,
    }
}

/// The path of the part after `://`: after the first `/`, or nothing.
pub open spec fn path_of(rest: Seq<char>) -> Seq<char> {
    match first_pos(rest, '/') {
        Some(i) => rest.skip(i + 1),
        None => Seq::empty(),
    }
}

pub open spec fn join_url(scheme: Seq<char>, rest: Seq<char>) -> Seq<char> {
    let path = path_of(rest);
    if path.len() == 0 {
        scheme + "://"@ + authority_of(rest)
    } else {
        scheme + "://"@ + authority_of(rest) + "/"@ + trim_slashes_end(path)
    }
}

/// A remote registry URL without fragment, query, credentials or trailing
/// slashes.
pub open spec fn canonical_url(v: Seq<char>) -> Seq<char> {
    let base = before(before(v, '#'), '?');
    match scheme_sep(base) {
        None => trim_slashes_end(base),
        Some(k) => join_url(base.take(k), base.skip(k + 3)),
    }
}

fn first_pos_exec(s: &Vec<char>, c: char) -> (r: Option<usize>)
    ensures
        r matches Some(i) ==> i < s@.len() && first_pos(s@, c) == Some(i as int),
        r is None <==> first_pos(s@, c) is None,
{
    let mut i: usize = 0;
    while i < s.len()
        invariant
            i <= s@.len(),
            forall|j: int| 0 <= j < i ==> s@[j] != c,
        decreases s@.len() - i,
    {
        if s[i] == c {
            proof {
                let w = choose|k: int| 0 <= k < s@.len() && s@[k] == c && forall|j: int| 0 <= j < k ==> s@[j] != c;
                if w < i {
                    assert(s@[w] != c);
                } else if w > i {
                    assert(s@[i as int] != c);
                }
            }
            return Some(i);
        }
        i += 1;
    }
    None
}

fn last_pos_exec(s: &Vec<char>, c: char) -> (r: Option<usize>)
    ensures
        r matches Some(i) ==> i < s@.len() && last_pos(s@, c) == Some(i as int),
        r is None <==> last_pos(s@, c) is None,
{
    let mut i: usize = s.len();
    while i > 0
        invariant
            i <= s@.len(),
            forall|j: int| i <= j < s@.len() ==> s@[j] != c,
        decreases i,
    {
        if s[i - 1] == c {
            proof {
                let w = choose|k: int| 0 <= k < s@.len() && s@[k] == c && forall|j: int| k < j < s@.len() ==> s@[j] != c;
                if w < i - 1 {
                    assert(s@[i - 1] != c);
                } else if w > i - 1 {
                    assert(s@[w] != c);
                }
            }
            return Some(i - 1);
        }
        i -= 1;
    }
    None
}

fn slice_of(s: &Vec<char>, from: usize, to: usize) -> (r: Vec<char>)
    requires
        from <= to <= s@.len(),
    ensures
        r@ == s@.subrange(from as int, to as int),
{
    let mut out: Vec<char> = Vec::new();
    let mut i = from;
    while i < to
        invariant
            from <= i <= to <= s@.len(),
            out@ == s@.subrange(from as int, i as int),
        decreases to - i,
    {
        out.push(s[i]);
        i += 1;
        proof {
            assert(out@ =~= s@.subrange(from as int, i as int));
        }
    }
    out
}

fn before_exec(s: &Vec<char>, c: char) -> (r: Vec<char>)
    ensures
        r@ == before(s@, c),
{
    match first_pos_exec(s, c) {
        Some(i) => {
            let r = slice_of(s, 0, i);
            proof {
                assert(r@ =~= s@.take(i as int));
            }
            r
        },
        None => {
            let r = slice_of(s, 0, s.len());
            proof {
                assert(r@ =~= s@);
            }
            r
        },
    }
}

fn trim_slashes_end_exec(s: &Vec<char>) -> (r: Vec<char>)
    ensures
        r@ == trim_slashes_end(s@),
{
    let mut end = s.len();
    while end > 0 && s[end - 1] == '/'
        invariant
            end <= s@.len(),
            forall|i: int| end <= i < s@.len() ==> s@[i] == '/',
        decreases end,
    {
        end -= 1;
    }
    proof {
        let p = |c: char| c == '/';
        assert forall|i: int| s@.len() - (s@.len() - end) <= i < s@.len() implies #[trigger] p(s@[i]) by {}
        if end > 0 {
            assert(!p(s@[end - 1]));
        }
        crate::text::lemma_tail_count_exact(s@, p, (s@.len() - end) as int);
    }
    let r = slice_of(s, 0, end);
    proof {
        assert(r@ =~= s@.take(end as int));
    }
    r
}

fn authority_exec(rest: &Vec<char>) -> (r: Vec<char>)
    ensures
        r@ == authority_of(rest@),
{
    let a = before_exec(rest, '/');
    match last_pos_exec(&a, '@') {
        Some(i) => {
            assert(i < a.len());
            let r = slice_of(&a, i + 1, a.len());
            proof {
                assert(r@ =~= a@.skip(i + 1));
            }
            r
        },
        None => {
            let r = slice_of(&a, 0, a.len());
            proof {
                assert(r@ =~= a@);
            }
            r
        },
    }
}

fn path_exec(rest: &Vec<char>) -> (r: Vec<char>)
    ensures
        r@ == path_of(rest@),
{
    match first_pos_exec(rest, '/') {
        Some(i) => {
            assert(i < rest.len());
            let r = slice_of(rest, i + 1, rest.len());
            proof {
                assert(r@ =~= rest@.skip(i + 1));
            }
            r
        },
        None => {
            let r: Vec<char> = Vec::new();
            proof {
                assert(r@ =~= Seq::<char>::empty());
            }
            r
        },
    }
}

fn join_url_exec(scheme: Vec<char>, rest: &Vec<char>) -> (r: Vec<char>)
    ensures
        r@ == join_url(scheme@, rest@),
{
    proof {
        reveal_strlit("://");
        reveal_strlit("/");
    }
    let authority = authority_exec(rest);
    let path = path_exec(rest);
    let mut out = scheme;
    let ghost s0 = out@;
    out.push(':');
    out.push('/');
    out.push('/');
    let mut a = authority;
    out.append(&mut a);
    if path.len() > 0 {
        out.push('/');
        let mut p = trim_slashes_end_exec(&path);
        out.append(&mut p);
    }
    proof {
        assert(out@ =~= join_url(s0, rest@));
    }
    out
}

/// A remote registry URL as the command reports it.
pub fn canonical_remote_registry_url(value: &str) -> (r: String)
    ensures
        r@ == canonical_url(value@),
{
    proof {
        reveal_strlit("://");
    }
    let v = chars_of(value);
    let no_fragment = before_exec(&v, '#');
    let base = before_exec(&no_fragment, '?');
    let sep: Vec<char> = vec![':', '/', '/'];
    proof {
        assert(sep@ =~= "://"@);
    }
    match crate::mcp::template::find_from_exec(&base, &sep, 0) {
        None => {
            let t = trim_slashes_end_exec(&base);
            string_from_chars(t.as_slice())
        },
        Some(k) => {
            proof {
                crate::mcp::template::lemma_find_from_bounds(base@, "://"@, 0);
                assert(k + 3 <= base@.len());
                assert(base@.len() == base.len());
            }
            let scheme = slice_of(&base, 0, k);
            let rest = slice_of(&base, k + 3, base.len());
            proof {
                assert(scheme@ =~= base@.take(k as int));
                assert(rest@ =~= base@.skip(k + 3));
            }
            let out = join_url_exec(scheme, &rest);
            string_from_chars(out.as_slice())
        },
    }
}

/// How the command describes a registry: its kind and its canonical URL
/// or path.
pub fn registry_source_description(target: &RegistryTarget) -> (r: String)
    ensures
        r@ == match *target {
            RegistryTarget::Remote { registry_url } => "remote "@ + canonical_url(registry_url@),
            RegistryTarget::Local { registry_path, source_kind, .. } => match source_kind {
                LocalRegistrySourceKind::Local => "local "@ + registry_path@,
                LocalRegistrySourceKind::File => "file "@ + registry_path@,
            },
        },
{
    match target {
        RegistryTarget::Remote { registry_url } => concat("remote ", canonical_remote_registry_url(registry_url.as_str()).as_str()),
        RegistryTarget::Local { registry_path, source_kind, .. } => match source_kind {
            LocalRegistrySourceKind::Local => concat("local ", registry_path.as_str()),
            LocalRegistrySourceKind::File => concat("file ", registry_path.as_str()),
        },
    }
}

// ---------------------------------------------------------------------
// What the command prints.
// ---------------------------------------------------------------------

#[derive(Clone, Copy, Debug, PartialEq, Eq, Structural)]
pub enum InstallStatus {
    Installed,
    Unchanged,
}

/// The signer of a signed manifest, as the command reports it.
#[derive(Clone, Debug, PartialEq)]
pub struct RegistryManifestSigner {
    pub key_id: String,
}

/// A signed registry manifest, as far as the command reports it.
#[derive(Clone, Debug, PartialEq)]
pub struct RegistrySignedManifest {
    pub signer: RegistryManifestSigner,
}

/// What an install did.
#[derive(Clone, Debug, PartialEq)]
pub struct InstallLocalSkillResult {
    pub status: InstallStatus,
    pub destination: String,
    pub skill_name: String,
    pub source: String,
    pub source_label: String,
    pub skill_id: Option<String>,
    pub version: Option<String>,
    pub digest: String,
    pub profile_digest: Option<String>,
    pub profile_state_path: Option<String>,
    pub runner_names: Vec<String>,
    pub trust_tier: Option<TrustTier>,
}

/// One search hit, as far as the command reports it.
#[derive(Clone, Debug, PartialEq)]
pub struct RegistrySearchResult {
    pub skill_id: String,
    pub version: Option<String>,
    pub digest: Option<String>,
    pub trust_tier: TrustTier,
    pub install_command: String,
    pub run_command: String,
}

/// A registry skill, as far as the read and resolve reports read it.
#[derive(Clone, Debug, PartialEq)]
pub struct RegistrySkillDetail {
    pub skill_id: String,
    pub version: String,
    pub digest: String,
    pub trust_tier: TrustTier,
    pub signed_manifest: Option<RegistrySignedManifest>,
    pub run_command: String,
}

/// A digest with its `sha256:` prefix.
pub open spec fn digest_text(d: Seq<char>) -> Seq<char> {
    if starts_with(d, "sha256:"@) {
        d
    } else {
        "sha256:"@ + d
    }
}

pub fn digest_label(digest: &str) -> (r: String)
    ensures
        r@ == digest_text(digest@),
{
    if starts_with_str(digest, "sha256:") {
        digest.to_owned()
    } else {
        concat("sha256:", digest)
    }
}

pub open spec fn tier_text(t: TrustTier) -> Seq<char> {
    match t {
        TrustTier::FirstParty => "first_party"@,
        TrustTier::Verified => "verified"@,
        TrustTier::Community => "community"@,
    }
}

pub fn trust_tier_label(tier: &TrustTier) -> (r: &'static str)
    ensures
        r@ == tier_text(*tier),
{
    match tier {
        TrustTier::FirstParty => "first_party",
        TrustTier::Verified => "verified",
        TrustTier::Community => "community",
    }
}

pub fn install_status_label(status: &InstallStatus) -> (r: &'static str)
    ensures
        r@ == match *status {
            InstallStatus::Installed => "installed"@,
            InstallStatus::Unchanged => "unchanged"@,
        },
{
    match status {
        InstallStatus::Installed => "installed",
        InstallStatus::Unchanged => "unchanged",
    }
}

pub open spec fn signed_text(m: Option<RegistrySignedManifest>) -> Seq<char> {
    match m {
        Some(x) => "yes ("@ + x.signer.key_id@ + ")"@,
        None => "no"@,
    }
}

pub fn signed_manifest_label(manifest: Option<&RegistrySignedManifest>) -> (r: String)
    ensures
        r@ == match manifest {
            Some(x) => "yes ("@ + x.signer.key_id@ + ")"@,
            None => "no"@,
        },
{
    match manifest {
        Some(m) => concat3("yes (", m.signer.key_id.as_str(), ")"),
        None => "no".to_owned(),
    }
}

/// The command that runs an installed skill: by id and version when both
/// are known, else by name.
pub open spec fn run_command_text(i: InstallLocalSkillResult) -> Seq<char> {
    match (i.skill_id, i.version) {
        (Some(id), Some(v)) => "runx skill "@ + id@ + "@"@ + v@,
        _ => "runx skill "@ + i.skill_name@,
    }
}

pub fn install_run_command(install: &InstallLocalSkillResult) -> (r: String)
    ensures
        r@ == run_command_text(*install),
{
    match (&install.skill_id, &install.version) {
        (Some(id), Some(v)) => {
            let mut r = concat3("runx skill ", id.as_str(), "@");
            r.append(v.as_str());
            r
        },
        _ => concat("runx skill ", install.skill_name.as_str()),
    }
}

pub open spec fn or_text(o: Option<String>, fallback: Seq<char>) -> Seq<char> {
    match o {
        Some(s) => s@,
        None => fallback,
    }
}

/// The report of an install.
pub open spec fn install_text(source: Seq<char>, registry_ref: Seq<char>, i: InstallLocalSkillResult, signed: Seq<char>) -> Seq<char> {
    "\n  registry install "@ + registry_ref + "\n  source           "@ + source
        + "\n  status           "@ + (match i.status {
            InstallStatus::Installed => "installed"@,
            InstallStatus::Unchanged => "unchanged"@,
        }) + "\n  skill            "@ + or_text(i.skill_id, i.skill_name@)
        + "\n  version          "@ + or_text(i.version, "unknown"@)
        + "\n  digest           "@ + digest_text(i.digest@)
        + "\n  trust            "@ + (match i.trust_tier {
            Some(t) => tier_text(t),
            None => "unknown"@,
        }) + "\n  signed           "@ + signed
        + "\n  destination      "@ + i.destination@
        + "\n  next             "@ + run_command_text(i) + "\n\n"@
}

pub fn render_install(
    source: &str,
    registry_ref: &str,
    install: &InstallLocalSkillResult,
    signed_manifest: Option<&RegistrySignedManifest>,
) -> (r: String)
    ensures
        r@ == install_text(source@, registry_ref@, *install, match signed_manifest {
            Some(x) => "yes ("@ + x.signer.key_id@ + ")"@,
            None => "no"@,
        }),
{
    let mut out = concat("\n  registry install ", registry_ref);
    out.append("\n  source           ");
    out.append(source);
    out.append("\n  status           ");
    out.append(install_status_label(&install.status));
    out.append("\n  skill            ");
    match &install.skill_id {
        Some(id) => out.append(id.as_str()),
        None => out.append(install.skill_name.as_str()),
    }
    out.append("\n  version          ");
    match &install.version {
        Some(v) => out.append(v.as_str()),
        None => out.append("unknown"),
    }
    out.append("\n  digest           ");
    out.append(digest_label(install.digest.as_str()).as_str());
    out.append("\n  trust            ");
    match &install.trust_tier {
        Some(t) => out.append(trust_tier_label(t)),
        None => out.append("unknown"),
    }
    out.append("\n  signed           ");
    out.append(signed_manifest_label(signed_manifest).as_str());
    out.append("\n  destination      ");
    out.append(install.destination.as_str());
    out.append("\n  next             ");
    out.append(install_run_command(install).as_str());
    out.append("\n\n");
    out
}

/// The report of a read or resolve: `heading` names the action.
pub open spec fn detail_text(heading: Seq<char>, source: Seq<char>, registry_ref: Seq<char>, d: RegistrySkillDetail) -> Seq<char> {
    "\n  "@ + heading + registry_ref + "\n  source           "@ + source
        + "\n  skill            "@ + d.skill_id@
        + "\n  version          "@ + d.version@
        + "\n  digest           "@ + digest_text(d.digest@)
        + "\n  trust            "@ + tier_text(d.trust_tier)
        + "\n  signed           "@ + signed_text(d.signed_manifest)
        + "\n  next             "@ + d.run_command@ + "\n\n"@
}

fn render_detail(heading: &str, source: &str, registry_ref: &str, d: &RegistrySkillDetail) -> (r: String)
    ensures
        r@ == detail_text(heading@, source@, registry_ref@, *d),
{
    let mut out = concat3("\n  ", heading, registry_ref);
    out.append("\n  source           ");
    out.append(source);
    out.append("\n  skill            ");
    out.append(d.skill_id.as_str());
    out.append("\n  version          ");
    out.append(d.version.as_str());
    out.append("\n  digest           ");
    out.append(digest_label(d.digest.as_str()).as_str());
    out.append("\n  trust            ");
    out.append(trust_tier_label(&d.trust_tier));
    out.append("\n  signed           ");
    let signed = match &d.signed_manifest {
        Some(m) => signed_manifest_label(Some(m)),
        None => signed_manifest_label(None),
    };
    out.append(signed.as_str());
    out.append("\n  next             ");
    out.append(d.run_command.as_str());
    out.append("\n\n");
    out
}

pub fn render_read(source: &str, registry_ref: &str, skill: &RegistrySkillDetail) -> (r: String)
    ensures
        r@ == detail_text("registry read    "@, source@, registry_ref@, *skill),
{
    render_detail("registry read    ", source, registry_ref, skill)
}

pub fn render_resolve(source: &str, registry_ref: &str, resolved: &RegistrySkillDetail) -> (r: String)
    ensures
        r@ == detail_text("registry resolve "@, source@, registry_ref@, *resolved),
{
    render_detail("registry resolve ", source, registry_ref, resolved)
}

/// One hit of a search report.
pub open spec fn hit_text(h: RegistrySearchResult) -> Seq<char> {
    "  - "@ + h.skill_id@ + "@"@ + or_text(h.version, "unknown"@)
        + "\n    digest   "@ + (match h.digest {
            Some(d) => digest_text(d@),
            None => "unknown"@,
        }) + "\n    trust    "@ + tier_text(h.trust_tier)
        + "\n    install  "@ + h.install_command@
        + "\n    run      "@ + h.run_command@ + "\n"@
}

pub open spec fn hits_text(hs: Seq<RegistrySearchResult>) -> Seq<char>
    decreases hs.len(),
{
    if hs.len() == 0 {
        Seq::empty()
    } else {
        hits_text(hs.drop_last()) + hit_text(hs.last())
    }
}

/// The report of a search.
pub open spec fn search_text(query: Seq<char>, source: Seq<char>, results: Seq<RegistrySearchResult>) -> Seq<char> {
    "\n  registry search  "@ + query + "\n  source           "@ + source
        + "\n  results          "@ + decimal(results.len()) + "\n\n"@ + hits_text(results) + "\n"@
}

fn render_hit(h: &RegistrySearchResult) -> (r: String)
    ensures
        r@ == hit_text(*h),
{
    let mut out = concat("  - ", h.skill_id.as_str());
    out.append("@");
    match &h.version {
        Some(v) => out.append(v.as_str()),
        None => out.append("unknown"),
    }
    out.append("\n    digest   ");
    match &h.digest {
        Some(d) => out.append(digest_label(d.as_str()).as_str()),
        None => out.append("unknown"),
    }
    out.append("\n    trust    ");
    out.append(trust_tier_label(&h.trust_tier));
    out.append("\n    install  ");
    out.append(h.install_command.as_str());
    out.append("\n    run      ");
    out.append(h.run_command.as_str());
    out.append("\n");
    out
}

pub fn render_search(query: &str, source: &str, results: &Vec<RegistrySearchResult>) -> (r: String)
    ensures
        r@ == search_text(query@, source@, results@),
{
    let mut out = concat("\n  registry search  ", query);
    out.append("\n  source           ");
    out.append(source);
    out.append("\n  results          ");
    out.append(u64_decimal(results.len() as u64).as_str());
    out.append("\n\n");
    let ghost head = out@;
    let mut i: usize = 0;
    proof {
        assert(results@.take(0) =~= Seq::<RegistrySearchResult>::empty());
        assert(out@ =~= head + hits_text(results@.take(0)));
    }
    while i < results.len()
        invariant
            i <= results@.len(),
            out@ == head + hits_text(results@.take(i as int)),
        decreases results@.len() - i,
    {
        proof {
            assert(results@.take(i + 1).drop_last() =~= results@.take(i as int));
        }
        let hit = render_hit(&results[i]);
        out.append(hit.as_str());
        i += 1;
        proof {
            assert(out@ =~= head + hits_text(results@.take(i as int)));
        }
    }
    out.append("\n");
    proof {
        assert(results@.take(results@.len() as int) =~= results@);
    }
    out
}

// ---------------------------------------------------------------------
// Errors.
// ---------------------------------------------------------------------

/// A registry command failure: its message and the exit code (64 for a
/// usage error, 1 otherwise).
#[derive(Clone, Debug, PartialEq)]
pub struct RegistryCliError {
    pub message: String,
    pub exit_code: u8,
}

impl RegistryCliError {
    pub fn into_message(self) -> (r: String)
        ensures
            r@ == self.message@,
    {
        self.message
    }

    /// The error code a JSON failure reports.
    pub fn code(&self) -> (r: &'static str)
        ensures
            r@ == (if self.exit_code == 64 {
                "invalid_args"@
            } else {
                "registry_error"@
            }),
    {
        if self.exit_code == 64 {
            "invalid_args"
        } else {
            "registry_error"
        }
    }
}

pub fn usage_error(message: String) -> (r: RegistryCliError)
    ensures
        r.message@ == message@,
        r.exit_code == 64,
{
    RegistryCliError { message, exit_code: 64 }
}

pub fn internal_error(message: String) -> (r: RegistryCliError)
    ensures
        r.message@ == message@,
        r.exit_code == 1,
{
    RegistryCliError { message, exit_code: 1 }
}

pub fn not_found(registry_ref: &str) -> (r: RegistryCliError)
    ensures
        r.message@ == "registry skill not found: "@ + registry_ref@,
        r.exit_code == 1,
{
    RegistryCliError { message: concat("registry skill not found: ", registry_ref), exit_code: 1 }
}


// ---------------------------------------------------------------------
// Where a target lives, and the workspace a command works in.
// ---------------------------------------------------------------------

impl RegistryTarget {
    /// The registry a target names, for fingerprints:
    /// a remote registry by its canonical URL, a local one by its absolute
    /// path (as the host resolved it, the given path where it could not).
    pub fn fingerprint_source(&self, absolute_path: &str) -> (r: String)
        ensures
            r@ == match *self {
                RegistryTarget::Remote { registry_url } => "remote:"@ + canonical_url(registry_url@),
                RegistryTarget::Local { source_kind, .. } => match source_kind {
                    LocalRegistrySourceKind::Local => "local:"@ + absolute_path@,
                    LocalRegistrySourceKind::File => "file:"@ + absolute_path@,
                },
            },
    {
        match self {
            RegistryTarget::Remote { registry_url } => {
                let canonical = canonical_remote_registry_url(registry_url.as_str());
                crate::text::concat("remote:", canonical.as_str())
            },
            RegistryTarget::Local { source_kind, .. } => match source_kind {
                LocalRegistrySourceKind::Local => crate::text::concat("local:", absolute_path),
                LocalRegistrySourceKind::File => crate::text::concat("file:", absolute_path),
            },
        }
    }
}

/// The base of the workspace: `RUNX_CWD`, else the enclosing workspace
/// root the host found, else `INIT_CWD`, else the working directory.
pub fn workspace_base(env: &Vec<(String, String)>, found_root: Option<&str>, cwd: &str) -> (r: String)
    ensures
        r@ == match env_find(env@, "RUNX_CWD"@) {
            Some(v) => v,
            None => match found_root {
                Some(f) => f@,
                None => match env_find(env@, "INIT_CWD"@) {
                    Some(v) => v,
                    None => cwd@,
                },
            },
        },
{
    match env_get(env, "RUNX_CWD") {
        Some(v) => return v,
        None => {},
    }
    match found_root {
        Some(f) => return f.to_owned(),
        None => {},
    }
    match env_get(env, "INIT_CWD") {
        Some(v) => v,
        None => cwd.to_owned(),
    }
}

} // verus!
