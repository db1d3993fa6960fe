//! Strategy types of gray releases.
use vstd::prelude::*;

verus! {

/// A strategy by which machines join a gray release.
#[derive(Debug, Clone)]
pub struct StrategyType {
    pub id: i32,
    pub code: String,
    pub name: String,
    pub category: Option<String>,
    pub description: Option<String>,
    pub processor_type: String,
    pub config_schema: Option<String>,
    pub is_active: bool,
}

} // verus!
