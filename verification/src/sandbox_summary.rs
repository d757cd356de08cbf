//! The sandbox section of an authority proof: what a run's sandbox metadata
//! records, with the skill's declaration and the approval as fallbacks.
use vstd::prelude::*;
use crate::json::{JsonData, JsonObject, JsonValue, lookup};
use crate::text::{str_eq, trim, trim_str};

verus! {

/// The sandbox a skill declared, as the authority proof reads it.
#[derive(Clone, Debug, PartialEq)]
pub struct AuthorityProofSandboxDeclaration {
    pub profile: Option<String>,
    pub cwd_policy: Option<String>,
    pub require_enforcement: Option<bool>,
    pub network: Option<bool>,
}

/// The approval recorded for an escalated sandbox.
#[derive(Clone, Debug, PartialEq)]
pub struct AuthorityProofApproval {
    pub approved: bool,
}

#[derive(Clone, Debug, PartialEq)]
pub struct AuthorityProofSandboxNetwork {
    pub declared: Option<bool>,
    pub enforcement: Option<String>,
}

#[derive(Clone, Debug, PartialEq)]
pub struct AuthorityProofSandboxFilesystem {
    pub enforcement: Option<String>,
    pub readonly_paths: Option<bool>,
    pub writable_paths_enforced: Option<bool>,
    pub private_tmp: Option<bool>,
}

#[derive(Clone, Debug, PartialEq)]
pub struct AuthorityProofSandboxRuntime {
    pub enforcer: Option<String>,
    pub reason: Option<String>,
}

/// The sandbox summary of an authority proof.
#[derive(Clone, Debug, PartialEq)]
pub struct AuthorityProofSandbox {
    pub profile: String,
    pub cwd_policy: Option<String>,
    pub require_enforcement: Option<bool>,
    pub network: Option<AuthorityProofSandboxNetwork>,
    pub filesystem: Option<AuthorityProofSandboxFilesystem>,
    pub runtime: Option<AuthorityProofSandboxRuntime>,
    pub approval_required: Option<bool>,
    pub approval_approved: Option<bool>,
}

pub type Entries = Seq<(Seq<char>, JsonData)>;

pub open spec fn opt_s(o: Option<String>) -> Option<Seq<char>> {
    match o {
        Some(s) => Some(s@),
        None => None,
    }
}

/// The object under `field`, if it holds one.
pub open spec fn object_at(o: Option<Entries>, field: Seq<char>) -> Option<Entries> {
    match o {
        Some(e) => match lookup(e, field) {
            Some(JsonData::Object(x)) => Some(x),
            _ => None,
        },
        None => None,
    }
}

/// A non-blank string under `field`, trimmed.
pub open spec fn string_at(o: Option<Entries>, field: Seq<char>) -> Option<Seq<char>> {
    match o {
        Some(e) => match lookup(e, field) {
            Some(JsonData::Str(s)) => if trim(s).len() > 0 {
                Some(trim(s))
            } else {
                None
            },
            _ => None,
        },
        None => None,
    }
}

/// A boolean under `field`.
pub open spec fn bool_at(o: Option<Entries>, field: Seq<char>) -> Option<bool> {
    match o {
        Some(e) => match lookup(e, field) {
            Some(JsonData::Bool(b)) => Some(b),
            _ => None,
        },
        None => None,
    }
}

/// A non-blank text, trimmed.
pub open spec fn non_blank(o: Option<Seq<char>>) -> Option<Seq<char>> {
    match o {
        Some(s) => if trim(s).len() > 0 {
            Some(trim(s))
        } else {
            None
        },
        None => None,
    }
}

pub open spec fn or_else<T>(a: Option<T>, b: Option<T>) -> Option<T> {
    match a {
        Some(x) => Some(x),
        None => b,
    }
}

/// The value's entries where it is an object.
fn as_object(value: Option<&JsonValue>) -> (r: Option<&JsonObject>)
    ensures
        (match r {
            Some(o) => Some(o.view()),
            None => None,
        }) == (match value {
            Some(v) => match v.data() {
                JsonData::Object(e) => Some(e),
                _ => None,
            },
            None => None,
        }),
{
    match value {
        Some(JsonValue::Object(o)) => Some(o),
        _ => None,
    }
}

/// The object stored under `field`.
fn object_field<'a>(object: Option<&'a JsonObject>, field: &str) -> (r: Option<&'a JsonObject>)
    ensures
        (match r {
            Some(o) => Some(o.view()),
            None => None,
        }) == object_at(
            match object {
                Some(o) => Some(o.view()),
                None => None,
            },
            field@,
        ),
{
    match object {
        Some(o) => match o.get(field) {
            Some(JsonValue::Object(x)) => Some(x),
            _ => None,
        },
        None => None,
    }
}

/// A non-blank string under `field`, trimmed.
pub fn string_field(object: Option<&JsonObject>, field: &str) -> (r: Option<String>)
    ensures
        opt_s(r) == string_at(
            match object {
                Some(o) => Some(o.view()),
                None => None,
            },
            field@,
        ),
{
    match object {
        Some(o) => match o.get(field) {
            Some(JsonValue::String(s)) => {
                let t = trim_str(s.as_str());
                if !t.as_str().is_empty() {
                    Some(t)
                } else {
                    None
                }
            },
            _ => None,
        },
        None => None,
    }
}

/// A boolean under `field`.
pub fn bool_field(object: Option<&JsonObject>, field: &str) -> (r: Option<bool>)
    ensures
        r == bool_at(
            match object {
                Some(o) => Some(o.view()),
                None => None,
            },
            field@,
        ),
{
    match object {
        Some(o) => match o.get(field) {
            Some(JsonValue::Bool(b)) => Some(*b),
            _ => None,
        },
        None => None,
    }
}

/// A non-blank text, trimmed.
pub fn optional_string(value: Option<&str>) -> (r: Option<String>)
    ensures
        opt_s(r) == non_blank(
            match value {
                Some(s) => Some(s@),
                None => None,
            },
        ),
{
    match value {
        Some(s) => {
            let t = trim_str(s);
            if !t.as_str().is_empty() {
                Some(t)
            } else {
                None
            }
        },
        None => None,
    }
}

pub struct NetworkView {
    pub declared: Option<bool>,
    pub enforcement: Option<Seq<char>>,
}

pub open spec fn network_summary(network: Option<Entries>, declared_network: Option<bool>) -> Option<NetworkView> {
    if network is None && declared_network is None {
        None
    } else {
        let declared = or_else(bool_at(network, "declared"@), declared_network);
        let enforcement = string_at(network, "enforcement"@);
        if declared is None && enforcement is None {
            None
        } else {
            Some(NetworkView { declared, enforcement })
        }
    }
}

pub open spec fn network_view(n: Option<AuthorityProofSandboxNetwork>) -> Option<NetworkView> {
    match n {
        Some(x) => Some(NetworkView { declared: x.declared, enforcement: opt_s(x.enforcement) }),
        None => None,
    }
}

/// The network record, with the declared network as
/// fallback; nothing where neither says anything.
pub fn summarize_network(
    network: Option<&JsonObject>,
    declaration: Option<&AuthorityProofSandboxDeclaration>,
) -> (r: Option<AuthorityProofSandboxNetwork>)
    ensures
        network_view(r) == network_summary(
            match network {
                Some(o) => Some(o.view()),
                None => None,
            },
            match declaration {
                Some(d) => d.network,
                None => None,
            },
        ),
{
    let declared_network = match declaration {
        Some(d) => d.network,
        None => None,
    };
    if network.is_none() && declared_network.is_none() {
        return None;
    }
    let declared = match bool_field(network, "declared") {
        Some(b) => Some(b),
        None => declared_network,
    };
    let enforcement = string_field(network, "enforcement");
    if declared.is_none() && enforcement.is_none() {
        None
    } else {
        Some(AuthorityProofSandboxNetwork { declared, enforcement })
    }
}

pub struct FilesystemView {
    pub enforcement: Option<Seq<char>>,
    pub readonly_paths: Option<bool>,
    pub writable_paths_enforced: Option<bool>,
    pub private_tmp: Option<bool>,
}

pub open spec fn filesystem_summary(fs: Option<Entries>) -> Option<FilesystemView> {
    match fs {
        None => None,
        Some(_) => {
            let v = FilesystemView {
                enforcement: string_at(fs, "enforcement"@),
                readonly_paths: bool_at(fs, "readonly_paths"@),
                writable_paths_enforced: bool_at(fs, "writable_paths_enforced"@),
                private_tmp: bool_at(fs, "private_tmp"@),
            };
            if v.enforcement is None && v.readonly_paths is None && v.writable_paths_enforced is None
                && v.private_tmp is None {
                None
            } else {
                Some(v)
            }
        },
    }
}

pub open spec fn filesystem_view(f: Option<AuthorityProofSandboxFilesystem>) -> Option<FilesystemView> {
    match f {
        Some(x) => Some(
            FilesystemView {
                enforcement: opt_s(x.enforcement),
                readonly_paths: x.readonly_paths,
                writable_paths_enforced: x.writable_paths_enforced,
                private_tmp: x.private_tmp,
            },
        ),
        None => None,
    }
}

/// The filesystem record, if it says anything.
pub fn summarize_filesystem(filesystem: Option<&JsonObject>) -> (r: Option<AuthorityProofSandboxFilesystem>)
    ensures
        filesystem_view(r) == filesystem_summary(
            match filesystem {
                Some(o) => Some(o.view()),
                None => None,
            },
        ),
{
    if filesystem.is_none() {
        return None;
    }
    let summary = AuthorityProofSandboxFilesystem {
        enforcement: string_field(filesystem, "enforcement"),
        readonly_paths: bool_field(filesystem, "readonly_paths"),
        writable_paths_enforced: bool_field(filesystem, "writable_paths_enforced"),
        private_tmp: bool_field(filesystem, "private_tmp"),
    };
    if summary.enforcement.is_none() && summary.readonly_paths.is_none() && summary.writable_paths_enforced.is_none()
        && summary.private_tmp.is_none() {
        None
    } else {
        Some(summary)
    }
}

pub struct RuntimeView {
    pub enforcer: Option<Seq<char>>,
    pub reason: Option<Seq<char>>,
}

pub open spec fn runtime_summary(rt: Option<Entries>) -> Option<RuntimeView> {
    match rt {
        None => None,
        Some(_) => {
            let v = RuntimeView { enforcer: string_at(rt, "enforcer"@), reason: string_at(rt, "reason"@) };
            if v.enforcer is None && v.reason is None {
                None
            } else {
                Some(v)
            }
        },
    }
}

pub open spec fn runtime_view(r: Option<AuthorityProofSandboxRuntime>) -> Option<RuntimeView> {
    match r {
        Some(x) => Some(RuntimeView { enforcer: opt_s(x.enforcer), reason: opt_s(x.reason) }),
        None => None,
    }
}

/// The runtime record, if it says anything.
pub fn summarize_runtime(runtime: Option<&JsonObject>) -> (r: Option<AuthorityProofSandboxRuntime>)
    ensures
        runtime_view(r) == runtime_summary(
            match runtime {
                Some(o) => Some(o.view()),
                None => None,
            },
        ),
{
    if runtime.is_none() {
        return None;
    }
    let summary = AuthorityProofSandboxRuntime {
        enforcer: string_field(runtime, "enforcer"),
        reason: string_field(runtime, "reason"),
    };
    if summary.enforcer.is_none() && summary.reason.is_none() {
        None
    } else {
        Some(summary)
    }
}

pub struct SandboxView {
    pub profile: Seq<char>,
    pub cwd_policy: Option<Seq<char>>,
    pub require_enforcement: Option<bool>,
    pub network: Option<NetworkView>,
    pub filesystem: Option<FilesystemView>,
    pub runtime: Option<RuntimeView>,
    pub approval_required: Option<bool>,
    pub approval_approved: Option<bool>,
}

pub open spec fn sandbox_view(s: AuthorityProofSandbox) -> SandboxView {
    SandboxView {
        profile: s.profile@,
        cwd_policy: opt_s(s.cwd_policy),
        require_enforcement: s.require_enforcement,
        network: network_view(s.network),
        filesystem: filesystem_view(s.filesystem),
        runtime: runtime_view(s.runtime),
        approval_required: s.approval_required,
        approval_approved: s.approval_approved,
    }
}

/// The summary: the metadata's record first, the declaration and the
/// approval after it; nothing without a profile from either.
pub open spec fn sandbox_summary(
    record: Option<Entries>,
    declaration: Option<AuthorityProofSandboxDeclaration>,
    approval: Option<AuthorityProofApproval>,
) -> Option<SandboxView> {
    let declared_profile = match declaration {
        Some(d) => non_blank(opt_s(d.profile)),
        None => None,
    };
    match or_else(string_at(record, "profile"@), declared_profile) {
        None => None,
        Some(profile) => {
            let approval_record = object_at(record, "approval"@);
            Some(
                SandboxView {
                    profile,
                    cwd_policy: or_else(
                        string_at(record, "cwd_policy"@),
                        match declaration {
                            Some(d) => non_blank(opt_s(d.cwd_policy)),
                            None => None,
                        },
                    ),
                    require_enforcement: or_else(
                        bool_at(record, "require_enforcement"@),
                        match declaration {
                            Some(d) => d.require_enforcement,
                            None => None,
                        },
                    ),
                    network: network_summary(
                        object_at(record, "network"@),
                        match declaration {
                            Some(d) => d.network,
                            None => None,
                        },
                    ),
                    filesystem: filesystem_summary(object_at(record, "filesystem"@)),
                    runtime: runtime_summary(object_at(record, "runtime"@)),
                    approval_required: or_else(
                        bool_at(approval_record, "required"@),
                        Some(profile == "unrestricted-local-dev"@),
                    ),
                    approval_approved: or_else(
                        bool_at(approval_record, "approved"@),
                        match approval {
                            Some(a) => Some(a.approved),
                            None => None,
                        },
                    ),
                },
            )
        },
    }
}

/// The sandbox record of an authority proof, from the run's sandbox
/// metadata, the declaration and the approval, if anything says something.
pub fn summarize_authority_sandbox(
    metadata: Option<&JsonValue>,
    declaration: Option<&AuthorityProofSandboxDeclaration>,
    approval: Option<&AuthorityProofApproval>,
) -> (r: Option<AuthorityProofSandbox>)
    ensures
        (match r {
            Some(s) => Some(sandbox_view(s)),
            None => None,
        }) == sandbox_summary(
            match metadata {
                Some(v) => match v.data() {
                    JsonData::Object(e) => Some(e),
                    _ => None,
                },
                None => None,
            },
            match declaration {
                Some(d) => Some(*d),
                None => None,
            },
            match approval {
                Some(a) => Some(*a),
                None => None,
            },
        ),
{
    let record = as_object(metadata);
    let profile = match string_field(record, "profile") {
        Some(p) => p,
        None => match declaration {
            Some(d) => match optional_string(
                match &d.profile {
                    Some(p) => Some(p.as_str()),
                    None => None,
                },
            ) {
                Some(p) => p,
                None => return None,
            },
            None => return None,
        },
    };
    let network = summarize_network(object_field(record, "network"), declaration);
    let filesystem = summarize_filesystem(object_field(record, "filesystem"));
    let runtime = summarize_runtime(object_field(record, "runtime"));
    let cwd_policy = match string_field(record, "cwd_policy") {
        Some(c) => Some(c),
        None => match declaration {
            Some(d) => optional_string(
                match &d.cwd_policy {
                    Some(p) => Some(p.as_str()),
                    None => None,
                },
            ),
            None => None,
        },
    };
    let require_enforcement = match bool_field(record, "require_enforcement") {
        Some(b) => Some(b),
        None => match declaration {
            Some(d) => d.require_enforcement,
            None => None,
        },
    };
    let approval_record = object_field(record, "approval");
    let approval_required = match bool_field(approval_record, "required") {
        Some(b) => Some(b),
        None => Some(str_eq(profile.as_str(), "unrestricted-local-dev")),
    };
    let approval_approved = match bool_field(approval_record, "approved") {
        Some(b) => Some(b),
        None => match approval {
            Some(a) => Some(a.approved),
            None => None,
        },
    };
    Some(
        AuthorityProofSandbox {
            profile,
            cwd_policy,
            require_enforcement,
            network,
            filesystem,
            runtime,
            approval_required,
            approval_approved,
        },
    )
}

/// The value where it is not blank (untrimmed).
pub fn non_empty_option(value: Option<String>) -> (r: Option<String>)
    ensures
        opt_s(r) == (match value {
            Some(s) => if trim(s@).len() > 0 {
                Some(s@)
            } else {
                None
            },
            None => None,
        }),
{
    match value {
        Some(s) => {
            let t = trim_str(s.as_str());
            if !t.as_str().is_empty() {
                Some(s)
            } else {
                None
            }
        },
        None => None,
    }
}


/// What the run recorded comes first, the declaration only in its stead:
/// whenever a summary is made, a boolean the metadata record holds under
/// `require_enforcement` is the summary's, whatever the declaration says,
/// and the declared value stands only where the record holds no boolean
/// there. The same holds of a non-blank recorded `cwd_policy` and
/// `profile` (trimmed) against the declared ones, and of a recorded
/// approval against the given one. Without a record, the declared working
/// directory policy and the given approval stand, and approval is required
/// exactly for the unrestricted local profile.
pub proof fn law_recorded_sandbox_settings_come_first(
    record: Option<Entries>,
    declaration: Option<AuthorityProofSandboxDeclaration>,
    approval: Option<AuthorityProofApproval>,
    e: Entries,
    inner: Entries,
    b: bool,
    text: Seq<char>,
)
    requires
        sandbox_summary(record, declaration, approval) is Some,
    ensures
        record == Some(e) && lookup(e, "require_enforcement"@) == Some(JsonData::Bool(b))
            ==> sandbox_summary(record, declaration, approval).unwrap().require_enforcement == Some(b),
        (forall|x: bool| !(record == Some(e) && lookup(e, "require_enforcement"@) == Some(JsonData::Bool(x))))
            && (record is None || record == Some(e))
            ==> sandbox_summary(record, declaration, approval).unwrap().require_enforcement == (match declaration {
                Some(d) => d.require_enforcement,
                None => None,
            }),
        record == Some(e) && lookup(e, "cwd_policy"@) == Some(JsonData::Str(text)) && trim(text).len() > 0
            ==> sandbox_summary(record, declaration, approval).unwrap().cwd_policy == Some(trim(text)),
        record == Some(e) && lookup(e, "profile"@) == Some(JsonData::Str(text)) && trim(text).len() > 0
            ==> sandbox_summary(record, declaration, approval).unwrap().profile == trim(text),
        record is None ==> sandbox_summary(record, declaration, approval).unwrap().cwd_policy == (match declaration {
            Some(d) => match d.cwd_policy {
                Some(c) => if trim(c@).len() > 0 {
                    Some(trim(c@))
                } else {
                    None
                },
                None => None,
            },
            None => None,
        }),
        record == Some(e) && lookup(e, "approval"@) == Some(JsonData::Object(inner)) && lookup(inner, "approved"@)
            == Some(JsonData::Bool(b)) ==> sandbox_summary(record, declaration, approval).unwrap().approval_approved
            == Some(b),
        record is None ==> sandbox_summary(record, declaration, approval).unwrap().approval_approved == (match approval {
            Some(a) => Some(a.approved),
            None => None,
        }),
        record is None ==> sandbox_summary(record, declaration, approval).unwrap().approval_required == Some(
            sandbox_summary(record, declaration, approval).unwrap().profile == "unrestricted-local-dev"@,
        ),
{
}

} // verus!
