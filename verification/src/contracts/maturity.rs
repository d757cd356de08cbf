//! Skill maturity tier and the signals it is computed from.
//!
//! Maturity describes how ready a skill is (tests, graph integration). It is
//! orthogonal to trust, which describes the author.
use vstd::prelude::*;

verus! {

/// How ready a skill is. `Alpha` is the floor for any published skill.
#[derive(Clone, Copy, Debug, PartialEq, Eq, Structural)]
pub enum MaturityTier {
    /// Published; harness incomplete or not all declared cases pass.
    Alpha,
    /// Every declared harness case passes.
    Beta,
    /// Every declared case passes and at least one passing case proves the
    /// skill runs inside a graph.
    Stable,
}

impl Default for MaturityTier {
    fn default() -> (r: Self)
        ensures
            r == MaturityTier::Alpha,
    {
        MaturityTier::Alpha
    }
}

/// The harness-derived inputs to the maturity decision.
#[derive(Clone, Copy, Debug, PartialEq, Eq, Structural)]
pub struct MaturitySignals {
    /// Number of harness cases the skill declares.
    pub declared_case_count: usize,
    /// Every declared case ran and passed.
    pub all_declared_cases_passed: bool,
    /// At least one passing case targets a graph that includes this skill.
    pub has_passing_graph_case: bool,
}

impl Default for MaturitySignals {
    fn default() -> (r: Self)
        ensures
            r.declared_case_count == 0,
            !r.all_declared_cases_passed,
            !r.has_passing_graph_case,
    {
        MaturitySignals { declared_case_count: 0, all_declared_cases_passed: false, has_passing_graph_case: false }
    }
}

} // verus!
