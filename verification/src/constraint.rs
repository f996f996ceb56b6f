//! Placement constraints as the orchestrator's API describes them.

use vstd::prelude::*;

verus! {

/// The comparison a constraint applies, by its wire name.
#[derive(Debug, Clone, Copy, PartialEq, Eq)]
pub enum Operand {
    DistinctProperty,  // "distinct_property"
    DistinctHosts,  // "distinct_hosts"
    Regex,  // "regexp"
    Version,  // "version"
    Semver,  // "semver"
    SetContains,  // "set_contains"
    SetContainsAll,  // "set_contains_all"
    SetContainsAny,  // "set_contains_any"
    AttributeIsSet,  // "is_set"
    AttributeIsNotSet,  // "is_not_set"
}

/// One placement constraint: restricts where a job may run.
#[derive(Debug, Clone, Default)]
pub struct Constraint {
    pub l_target: Option<String>,
    pub r_target: Option<String>,
    pub operand: Option<String>,
}

} // verus!
