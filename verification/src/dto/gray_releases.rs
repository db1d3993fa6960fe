//! Gray (staged) releases.
use vstd::prelude::*;

verus! {

/// A gray release: a set of versions offered to a chosen part of the
/// machines of a platform.
#[derive(Debug, Clone)]
pub struct GrayRelease {
    pub id: i32,
    pub name: String,
    pub description: Option<String>,
    pub platform: String,
    pub status: String,
    pub start_time: i64,
    pub end_time: Option<i64>,
    pub max_machines: Option<i32>,
    pub allocated_count: i32,
    pub priority: i32,
    pub strategy_type: Option<String>,
    pub strategy_config: Option<serde_json::Value>,
    pub created_at: i64,
    pub updated_at: Option<i64>,
}

} // verus!
