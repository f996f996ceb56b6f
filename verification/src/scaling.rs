//! Scaling policies attached to jobs and task groups.

use vstd::prelude::*;

use std::collections::HashMap;

verus! {

/// How far and by what policy a target may scale.
#[derive(Debug, Clone, Default)]
pub struct ScalingPolicy {
    pub min: Option<i64>,
    pub max: Option<i64>,
    pub policy: HashMap<String, String>,
    pub enabled: Option<bool>,
    pub policy_type: Option<String>,
    pub id: String,
    pub namespace: String,
    pub target: HashMap<String, String>,
    pub create_index: u64,
    pub modify_index: u64,
}

} // verus!
