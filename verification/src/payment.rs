//! Payment rail admission: a spend reaches the rail only when the child
//! authority narrows its parent, a selected reservation decision exists,
//! the single-use spend capability is bound to this act and unused, and a
//! rail proof is present where receipts must precede success.
use vstd::prelude::*;
use crate::reference::{Reference, ReferenceType, ReferenceView, same_ref, same_reference, opt_str};
use crate::text::str_eq;

verus! {

#[derive(Clone, Copy, Debug, PartialEq, Eq, Structural)]
pub enum AuthorityVerb {
    Quote,
    Reserve,
    Spend,
    Verify,
    Refund,
}

#[derive(Clone, Copy, Debug, PartialEq, Eq, Structural)]
pub enum AuthorityResourceFamily {
    Payment,
    Provider,
    Filesystem,
    Network,
}

#[derive(Clone, Copy, Debug, PartialEq, Eq, Structural)]
pub enum AuthorityCapability {
    PaymentSingleUseSpend,
}

#[derive(Clone, Copy, Debug, PartialEq, Eq, Structural)]
pub enum PaymentCredentialForm {
    SingleUseSpendCapability,
    SessionCredential,
}

/// The payment bounds of an authority term.
#[derive(Clone, Debug, PartialEq)]
pub struct PaymentAuthorityBounds {
    pub currency: String,
    pub max_per_call_minor: Option<u64>,
    pub max_per_run_minor: Option<u64>,
    pub max_per_period_minor: Option<u64>,
    pub period: Option<String>,
    pub rails: Vec<String>,
    pub realm: Option<String>,
    pub counterparty: Option<String>,
    pub operation: Option<String>,
    pub quote_ttl_ms: Option<u64>,
    pub approval_threshold_minor: Option<u64>,
    pub credential_form: Option<PaymentCredentialForm>,
    pub quote_required: bool,
    pub reservation_required: bool,
    pub idempotency_required: bool,
    pub recovery_required: bool,
    pub receipt_before_success: bool,
    pub single_use_spend: bool,
}

#[derive(Clone, Debug, PartialEq)]
pub struct AuthorityBounds {
    pub payment: Option<PaymentAuthorityBounds>,
}

impl Default for AuthorityBounds {
    fn default() -> (r: Self)
        ensures
            r.payment is None,
    {
        AuthorityBounds { payment: None }
    }
}

/// A grant of authority over a resource family.
#[derive(Clone, Debug, PartialEq)]
pub struct AuthorityTerm {
    pub term_id: String,
    pub principal_ref: Reference,
    pub resource_ref: Reference,
    pub resource_family: AuthorityResourceFamily,
    pub verbs: Vec<AuthorityVerb>,
    pub bounds: AuthorityBounds,
    pub conditions: Vec<String>,
    pub approvals: Vec<String>,
    pub capabilities: Vec<AuthorityCapability>,
    pub expires_at: Option<String>,
    pub issued_by_ref: Reference,
    pub credential_ref: Option<Reference>,
}

#[derive(Clone, Copy, Debug, PartialEq, Eq, Structural)]
pub enum DecisionChoice {
    Continue,
    Stop,
    Escalate,
}

#[derive(Clone, Debug, PartialEq)]
pub struct DecisionInputs {
    pub signal_refs: Vec<Reference>,
}

impl Default for DecisionInputs {
    fn default() -> (r: Self)
        ensures
            r.signal_refs@.len() == 0,
    {
        DecisionInputs { signal_refs: Vec::new() }
    }
}

#[derive(Clone, Debug, PartialEq)]
pub struct Intent {
    pub purpose: String,
    pub legitimacy: String,
    pub success_criteria: Vec<String>,
    pub constraints: Vec<String>,
    pub derived_from: Vec<Reference>,
}

#[derive(Clone, Debug, PartialEq)]
pub struct DecisionJustification {
    pub summary: String,
    pub evidence_refs: Vec<Reference>,
}

/// A decision that may select the act a spend belongs to.
#[derive(Clone, Debug, PartialEq)]
pub struct Decision {
    pub decision_id: String,
    pub choice: DecisionChoice,
    pub inputs: DecisionInputs,
    pub proposed_intent: Intent,
    pub selected_act_id: Option<String>,
    pub selected_harness_ref: Option<Reference>,
    pub justification: DecisionJustification,
    pub closure: Option<String>,
    pub artifact_refs: Vec<Reference>,
}

/// What a single-use spend capability was minted for.
#[derive(Clone, Copy, Debug)]
pub struct PaymentSpendCapabilityBinding<'a> {
    pub child_harness_ref: &'a Reference,
    pub act_id: &'a str,
    pub reservation_decision_id: &'a str,
    pub idempotency_key: &'a str,
    pub amount_minor: u64,
    pub currency: &'a str,
    pub counterparty: &'a str,
    pub rail: &'a str,
}

/// Everything the rail admission reads.
#[derive(Clone, Copy, Debug)]
pub struct PaymentRailAuthorization<'a> {
    pub parent_authority: &'a AuthorityTerm,
    pub child_authority: &'a AuthorityTerm,
    pub reservation_decision: Option<&'a Decision>,
    pub subset_proof_present: bool,
    pub child_harness_ref: &'a Reference,
    pub act_id: &'a str,
    pub idempotency_key: Option<&'a str>,
    pub spend_capability_binding: Option<PaymentSpendCapabilityBinding<'a>>,
    pub rail_proof_refs: &'a [Reference],
    pub consumed_spend_capability_refs: &'a [Reference],
    pub spend_capability_ref: Option<&'a Reference>,
}

/// The admitted spend.
#[derive(Clone, Debug, PartialEq)]
pub struct PaymentRailAuthorizationDecision<'a> {
    pub parent_term_id: &'a str,
    pub child_term_id: &'a str,
    pub act_id: &'a str,
    pub idempotency_key: Option<&'a str>,
    pub rail_proof_refs: &'a [Reference],
}

#[derive(Clone, Copy, Debug, PartialEq, Eq, Structural)]
pub enum PaymentAuthorityError {
    WildcardCounterpartyDenied,
    AuthorityNotSubset,
    MissingReservationDecision,
    ReservationDecisionNotSelected,
    MissingSubsetProof,
    MissingIdempotencyKey,
    SpendCapabilityBindingMismatch,
    MissingSpendCapability,
    SpendCapabilityAlreadyConsumed,
    MissingReceiptBeforeSuccess,
}

pub open spec fn error_text(e: PaymentAuthorityError) -> Seq<char> {
    match e {
        PaymentAuthorityError::WildcardCounterpartyDenied => "payment spend counterparty must not be a wildcard"@,
        PaymentAuthorityError::AuthorityNotSubset => "child payment authority is not a subset of its parent"@,
        PaymentAuthorityError::MissingReservationDecision => "payment spend requires a reservation decision"@,
        PaymentAuthorityError::ReservationDecisionNotSelected => "reservation decision did not select this act"@,
        PaymentAuthorityError::MissingSubsetProof => "payment spend requires an authority subset proof"@,
        PaymentAuthorityError::MissingIdempotencyKey => "payment spend requires an idempotency key"@,
        PaymentAuthorityError::SpendCapabilityBindingMismatch => "spend capability binding does not match this act"@,
        PaymentAuthorityError::MissingSpendCapability => "single-use spend requires a spend capability reference"@,
        PaymentAuthorityError::SpendCapabilityAlreadyConsumed => "single-use spend capability was already consumed"@,
        PaymentAuthorityError::MissingReceiptBeforeSuccess => "payment spend success requires a rail proof receipt"@,
    }
}

impl PaymentAuthorityError {
    /// The error's message.
    pub fn message(&self) -> (s: &'static str)
        ensures
            s@ == error_text(*self),
    {
        match self {
            PaymentAuthorityError::WildcardCounterpartyDenied => "payment spend counterparty must not be a wildcard",
            PaymentAuthorityError::AuthorityNotSubset => "child payment authority is not a subset of its parent",
            PaymentAuthorityError::MissingReservationDecision => "payment spend requires a reservation decision",
            PaymentAuthorityError::ReservationDecisionNotSelected => "reservation decision did not select this act",
            PaymentAuthorityError::MissingSubsetProof => "payment spend requires an authority subset proof",
            PaymentAuthorityError::MissingIdempotencyKey => "payment spend requires an idempotency key",
            PaymentAuthorityError::SpendCapabilityBindingMismatch => "spend capability binding does not match this act",
            PaymentAuthorityError::MissingSpendCapability => "single-use spend requires a spend capability reference",
            PaymentAuthorityError::SpendCapabilityAlreadyConsumed => "single-use spend capability was already consumed",
            PaymentAuthorityError::MissingReceiptBeforeSuccess => "payment spend success requires a rail proof receipt",
        }
    }
}

// ---------------------------------------------------------------------
// The admission rules, stated over the inputs.
// ---------------------------------------------------------------------

pub open spec fn verbs_within(child: Seq<AuthorityVerb>, parent: Seq<AuthorityVerb>) -> bool {
    forall|i: int| 0 <= i < child.len() ==> parent.contains(#[trigger] child[i])
}

pub open spec fn has_text(items: Seq<String>, s: Seq<char>) -> bool {
    exists|j: int| 0 <= j < items.len() && #[trigger] items[j]@ == s
}

pub open spec fn texts_within(child: Seq<String>, parent: Seq<String>) -> bool {
    forall|i: int| 0 <= i < child.len() ==> has_text(parent, #[trigger] child[i]@)
}

/// A child limit narrows a parent limit: where the parent caps, the child
/// caps at or below it.
pub open spec fn limit_within(child: Option<u64>, parent: Option<u64>) -> bool {
    match parent {
        None => true,
        Some(p) => match child {
            Some(c) => c <= p,
            None => false,
        },
    }
}

/// A parent restriction to one value is kept by the child.
pub open spec fn pinned_within(child: Option<Seq<char>>, parent: Option<Seq<char>>) -> bool {
    match parent {
        None => true,
        Some(p) => child == Some(p),
    }
}

/// A requirement of the parent is a requirement of the child.
pub open spec fn required_within(child: bool, parent: bool) -> bool {
    parent ==> child
}

pub open spec fn payment_within(child: PaymentAuthorityBounds, parent: PaymentAuthorityBounds) -> bool {
    &&& child.currency@ == parent.currency@
    &&& texts_within(child.rails@, parent.rails@)
    &&& limit_within(child.max_per_call_minor, parent.max_per_call_minor)
    &&& limit_within(child.max_per_run_minor, parent.max_per_run_minor)
    &&& limit_within(child.max_per_period_minor, parent.max_per_period_minor)
    &&& pinned_within(opt_str(child.counterparty), opt_str(parent.counterparty))
    &&& pinned_within(opt_str(child.operation), opt_str(parent.operation))
    &&& required_within(child.quote_required, parent.quote_required)
    &&& required_within(child.reservation_required, parent.reservation_required)
    &&& required_within(child.idempotency_required, parent.idempotency_required)
    &&& required_within(child.recovery_required, parent.recovery_required)
    &&& required_within(child.receipt_before_success, parent.receipt_before_success)
    &&& required_within(child.single_use_spend, parent.single_use_spend)
}

/// The child term grants nothing the parent does not.
pub open spec fn term_within(child: AuthorityTerm, parent: AuthorityTerm) -> bool {
    &&& child.resource_family == parent.resource_family
    &&& verbs_within(child.verbs@, parent.verbs@)
    &&& match parent.bounds.payment {
        None => true,
        Some(p) => match child.bounds.payment {
            Some(c) => payment_within(c, p),
            None => false,
        },
    }
}

pub open spec fn wildcard_counterparty(t: AuthorityTerm) -> bool {
    match t.bounds.payment {
        Some(p) => opt_str(p.counterparty) == Some("*"@),
        None => false,
    }
}

pub open spec fn decision_selects(d: Decision, act_id: Seq<char>) -> bool {
    opt_str(d.selected_act_id) == Some(act_id)
}

pub open spec fn key_present(k: Option<&str>) -> bool {
    match k {
        Some(s) => s@.len() > 0,
        None => false,
    }
}

pub open spec fn idempotency_required(t: AuthorityTerm) -> bool {
    match t.bounds.payment {
        Some(p) => p.idempotency_required,
        None => false,
    }
}

pub open spec fn single_use(t: AuthorityTerm) -> bool {
    match t.bounds.payment {
        Some(p) => p.single_use_spend,
        None => false,
    }
}

pub open spec fn receipt_first(t: AuthorityTerm) -> bool {
    match t.bounds.payment {
        Some(p) => p.receipt_before_success,
        None => false,
    }
}

/// The binding names this act, harness, decision, key and a spend inside
/// the child's payment bounds.
pub open spec fn binding_matches(
    b: PaymentSpendCapabilityBinding,
    a: PaymentRailAuthorization,
    d: Decision,
) -> bool {
    &&& same_ref(b.child_harness_ref@, a.child_harness_ref@)
    &&& b.act_id@ == a.act_id@
    &&& b.reservation_decision_id@ == d.decision_id@
    &&& (match a.idempotency_key {
        Some(k) => b.idempotency_key@ == k@,
        None => false,
    })
    &&& match a.child_authority.bounds.payment {
        Some(p) => {
            &&& b.currency@ == p.currency@
            &&& has_text(p.rails@, b.rail@)
            &&& (match p.max_per_call_minor {
                Some(m) => b.amount_minor <= m,
                None => true,
            })
            &&& (match opt_str(p.counterparty) {
                Some(c) => b.counterparty@ == c,
                None => true,
            })
        },
        None => false,
    }
}

pub open spec fn ref_listed(refs: Seq<Reference>, r: ReferenceView) -> bool {
    exists|i: int| 0 <= i < refs.len() && same_ref(#[trigger] refs[i]@, r)
}

/// The admission ruling: the first rule that fails, in order.
pub open spec fn rail_ruling(a: PaymentRailAuthorization) -> Result<(), PaymentAuthorityError> {
    if wildcard_counterparty(*a.child_authority) {
        Err(PaymentAuthorityError::WildcardCounterpartyDenied)
    } else if !term_within(*a.child_authority, *a.parent_authority) {
        Err(PaymentAuthorityError::AuthorityNotSubset)
    } else if a.reservation_decision is None {
        Err(PaymentAuthorityError::MissingReservationDecision)
    } else if !decision_selects(*a.reservation_decision.unwrap(), a.act_id@) {
        Err(PaymentAuthorityError::ReservationDecisionNotSelected)
    } else if !a.subset_proof_present {
        Err(PaymentAuthorityError::MissingSubsetProof)
    } else if idempotency_required(*a.child_authority) && !key_present(a.idempotency_key) {
        Err(PaymentAuthorityError::MissingIdempotencyKey)
    } else if (a.spend_capability_binding is Some && !binding_matches(
        a.spend_capability_binding.unwrap(),
        a,
        *a.reservation_decision.unwrap(),
    )) || (single_use(*a.child_authority) && a.spend_capability_binding is None) {
        Err(PaymentAuthorityError::SpendCapabilityBindingMismatch)
    } else if single_use(*a.child_authority) && a.spend_capability_ref is None {
        Err(PaymentAuthorityError::MissingSpendCapability)
    } else if single_use(*a.child_authority) && ref_listed(
        a.consumed_spend_capability_refs@,
        a.spend_capability_ref.unwrap()@,
    ) {
        Err(PaymentAuthorityError::SpendCapabilityAlreadyConsumed)
    } else if receipt_first(*a.child_authority) && a.rail_proof_refs@.len() == 0 {
        Err(PaymentAuthorityError::MissingReceiptBeforeSuccess)
    } else {
        Ok(())
    }
}

// ---------------------------------------------------------------------
// Executable checks.
// ---------------------------------------------------------------------

fn verb_listed(verbs: &Vec<AuthorityVerb>, v: AuthorityVerb) -> (r: bool)
    ensures
        r == verbs@.contains(v),
{
    let mut i: usize = 0;
    while i < verbs.len()
        invariant
            i <= verbs@.len(),
            forall|j: int| 0 <= j < i ==> verbs@[j] != v,
        decreases verbs@.len() - i,
    {
        if verbs[i] == v {
            return true;
        }
        i += 1;
    }
    false
}

fn verbs_within_exec(child: &Vec<AuthorityVerb>, parent: &Vec<AuthorityVerb>) -> (r: bool)
    ensures
        r == verbs_within(child@, parent@),
{
    let mut i: usize = 0;
    while i < child.len()
        invariant
            i <= child@.len(),
            forall|j: int| 0 <= j < i ==> parent@.contains(#[trigger] child@[j]),
        decreases child@.len() - i,
    {
        if !verb_listed(parent, child[i]) {
            return false;
        }
        i += 1;
    }
    true
}

/// `s` is one of `items`.
pub fn text_listed(items: &Vec<String>, s: &str) -> (r: bool)
    ensures
        r == has_text(items@, s@),
{
    let mut i: usize = 0;
    while i < items.len()
        invariant
            i <= items@.len(),
            forall|j: int| 0 <= j < i ==> items@[j]@ != s@,
        decreases items@.len() - i,
    {
        if str_eq(items[i].as_str(), s) {
            return true;
        }
        i += 1;
    }
    false
}

fn texts_within_exec(child: &Vec<String>, parent: &Vec<String>) -> (r: bool)
    ensures
        r == texts_within(child@, parent@),
{
    let mut i: usize = 0;
    while i < child.len()
        invariant
            i <= child@.len(),
            forall|j: int| 0 <= j < i ==> has_text(parent@, #[trigger] child@[j]@),
        decreases child@.len() - i,
    {
        if !text_listed(parent, child[i].as_str()) {
            return false;
        }
        i += 1;
    }
    true
}

fn limit_within_exec(child: Option<u64>, parent: Option<u64>) -> (r: bool)
    ensures
        r == limit_within(child, parent),
{
    match parent {
        None => true,
        Some(p) => match child {
            Some(c) => c <= p,
            None => false,
        },
    }
}

fn pinned_within_exec(child: &Option<String>, parent: &Option<String>) -> (r: bool)
    ensures
        r == pinned_within(opt_str(*child), opt_str(*parent)),
{
    match parent {
        None => true,
        Some(p) => match child {
            Some(c) => str_eq(c.as_str(), p.as_str()),
            None => false,
        },
    }
}

fn payment_within_exec(child: &PaymentAuthorityBounds, parent: &PaymentAuthorityBounds) -> (r: bool)
    ensures
        r == payment_within(*child, *parent),
{
    child.currency == parent.currency && texts_within_exec(&child.rails, &parent.rails)
        && limit_within_exec(child.max_per_call_minor, parent.max_per_call_minor)
        && limit_within_exec(child.max_per_run_minor, parent.max_per_run_minor)
        && limit_within_exec(child.max_per_period_minor, parent.max_per_period_minor)
        && pinned_within_exec(&child.counterparty, &parent.counterparty) && pinned_within_exec(
        &child.operation,
        &parent.operation,
    ) && (!parent.quote_required || child.quote_required) && (!parent.reservation_required
        || child.reservation_required) && (!parent.idempotency_required
        || child.idempotency_required) && (!parent.recovery_required || child.recovery_required)
        && (!parent.receipt_before_success || child.receipt_before_success) && (
    !parent.single_use_spend || child.single_use_spend)
}

/// The child term grants nothing its parent does not.
pub fn authority_term_within(child: &AuthorityTerm, parent: &AuthorityTerm) -> (r: bool)
    ensures
        r == term_within(*child, *parent),
{
    if child.resource_family != parent.resource_family {
        return false;
    }
    if !verbs_within_exec(&child.verbs, &parent.verbs) {
        return false;
    }
    match &parent.bounds.payment {
        None => true,
        Some(p) => match &child.bounds.payment {
            Some(c) => payment_within_exec(c, p),
            None => false,
        },
    }
}

fn binding_matches_exec(
    b: &PaymentSpendCapabilityBinding,
    a: &PaymentRailAuthorization,
    d: &Decision,
) -> (r: bool)
    ensures
        r == binding_matches(*b, *a, *d),
{
    if !same_reference(b.child_harness_ref, a.child_harness_ref) {
        return false;
    }
    if !str_eq(b.act_id, a.act_id) {
        return false;
    }
    if !str_eq(b.reservation_decision_id, d.decision_id.as_str()) {
        return false;
    }
    match a.idempotency_key {
        Some(k) => {
            if !str_eq(b.idempotency_key, k) {
                return false;
            }
        },
        None => {
            return false;
        },
    }
    match &a.child_authority.bounds.payment {
        Some(p) => {
            if !str_eq(b.currency, p.currency.as_str()) {
                return false;
            }
            if !text_listed(&p.rails, b.rail) {
                return false;
            }
            match p.max_per_call_minor {
                Some(m) => {
                    if b.amount_minor > m {
                        return false;
                    }
                },
                None => {},
            }
            match &p.counterparty {
                Some(c) => str_eq(b.counterparty, c.as_str()),
                None => true,
            }
        },
        None => false,
    }
}

fn ref_listed_exec(refs: &[Reference], r: &Reference) -> (b: bool)
    ensures
        b == ref_listed(refs@, r@),
{
    let mut i: usize = 0;
    while i < refs.len()
        invariant
            i <= refs@.len(),
            forall|j: int| 0 <= j < i ==> !same_ref(#[trigger] refs@[j]@, r@),
        decreases refs@.len() - i,
    {
        if same_reference(&refs[i], r) {
            return true;
        }
        i += 1;
    }
    false
}

fn wildcard_counterparty_exec(t: &AuthorityTerm) -> (r: bool)
    ensures
        r == wildcard_counterparty(*t),
{
    match &t.bounds.payment {
        Some(p) => match &p.counterparty {
            Some(c) => str_eq(c.as_str(), "*"),
            None => false,
        },
        None => false,
    }
}

fn payment_flag(t: &AuthorityTerm, which: u8) -> (r: bool)
    ensures
        which == 0 ==> r == idempotency_required(*t),
        which == 1 ==> r == single_use(*t),
        which == 2 ==> r == receipt_first(*t),
{
    match &t.bounds.payment {
        Some(p) => if which == 0 {
            p.idempotency_required
        } else if which == 1 {
            p.single_use_spend
        } else {
            p.receipt_before_success
        },
        None => false,
    }
}

/// Admits a payment spend on its rail, or names the first rule it breaks.
pub fn authorize_payment_rail<'a>(a: PaymentRailAuthorization<'a>) -> (r: Result<
    PaymentRailAuthorizationDecision<'a>,
    PaymentAuthorityError,
>)
    ensures
        match r {
            Ok(d) => rail_ruling(a) is Ok && d.parent_term_id@ == a.parent_authority.term_id@
                && d.child_term_id@ == a.child_authority.term_id@ && d.act_id@ == a.act_id@
                && d.idempotency_key == a.idempotency_key && d.rail_proof_refs@
                == a.rail_proof_refs@,
            Err(e) => rail_ruling(a) == Err::<(), PaymentAuthorityError>(e),
        },
{
    if wildcard_counterparty_exec(a.child_authority) {
        return Err(PaymentAuthorityError::WildcardCounterpartyDenied);
    }
    if !authority_term_within(a.child_authority, a.parent_authority) {
        return Err(PaymentAuthorityError::AuthorityNotSubset);
    }
    let decision = match a.reservation_decision {
        Some(d) => d,
        None => {
            return Err(PaymentAuthorityError::MissingReservationDecision);
        },
    };
    let selected = match &decision.selected_act_id {
        Some(id) => str_eq(id.as_str(), a.act_id),
        None => false,
    };
    if !selected {
        return Err(PaymentAuthorityError::ReservationDecisionNotSelected);
    }
    if !a.subset_proof_present {
        return Err(PaymentAuthorityError::MissingSubsetProof);
    }
    let key_ok = match a.idempotency_key {
        Some(k) => !k.is_empty(),
        None => false,
    };
    if payment_flag(a.child_authority, 0) && !key_ok {
        return Err(PaymentAuthorityError::MissingIdempotencyKey);
    }
    let single = payment_flag(a.child_authority, 1);
    let binding_ok = match &a.spend_capability_binding {
        Some(b) => binding_matches_exec(b, &a, decision),
        None => !single,
    };
    if !binding_ok {
        return Err(PaymentAuthorityError::SpendCapabilityBindingMismatch);
    }
    if single {
        match a.spend_capability_ref {
            None => {
                return Err(PaymentAuthorityError::MissingSpendCapability);
            },
            Some(spend_ref) => {
                if ref_listed_exec(a.consumed_spend_capability_refs, spend_ref) {
                    return Err(PaymentAuthorityError::SpendCapabilityAlreadyConsumed);
                }
            },
        }
    }
    if payment_flag(a.child_authority, 2) && a.rail_proof_refs.len() == 0 {
        return Err(PaymentAuthorityError::MissingReceiptBeforeSuccess);
    }
    Ok(
        PaymentRailAuthorizationDecision {
            parent_term_id: a.parent_authority.term_id.as_str(),
            child_term_id: a.child_authority.term_id.as_str(),
            act_id: a.act_id,
            idempotency_key: a.idempotency_key,
            rail_proof_refs: a.rail_proof_refs,
        },
    )
}

/// Authority narrows at every hop: an admitted spend's child term is within
/// its parent term, so no spend reaches past the authority its caller held.
pub proof fn law_admitted_spend_narrows_parent(a: PaymentRailAuthorization)
    requires
        rail_ruling(a) is Ok,
    ensures
        term_within(*a.child_authority, *a.parent_authority),
        !wildcard_counterparty(*a.child_authority),
{
}

/// A single-use spend capability is spent once: when it is already listed
/// as consumed, the rail refuses it.
pub proof fn law_single_use_capability_not_reused(a: PaymentRailAuthorization)
    requires
        single_use(*a.child_authority),
        a.spend_capability_ref is Some,
        ref_listed(a.consumed_spend_capability_refs@, a.spend_capability_ref.unwrap()@),
    ensures
        rail_ruling(a) is Err,
{
}

/// Where the child requires a receipt before success, no spend is admitted
/// without a rail proof.
pub proof fn law_receipt_before_success(a: PaymentRailAuthorization)
    requires
        receipt_first(*a.child_authority),
        a.rail_proof_refs@.len() == 0,
    ensures
        rail_ruling(a) is Err,
{
}

/// Admission never widens: a child granting a verb its parent lacks is
/// refused.
pub proof fn law_widened_verb_refused(a: PaymentRailAuthorization, v: AuthorityVerb)
    requires
        a.child_authority.verbs@.contains(v),
        !a.parent_authority.verbs@.contains(v),
    ensures
        rail_ruling(a) is Err,
{
    let i = choose|i: int| 0 <= i < a.child_authority.verbs@.len() && a.child_authority.verbs@[i] == v;
    assert(!verbs_within(a.child_authority.verbs@, a.parent_authority.verbs@));
}

} // verus!
