//! Tags of machines.
use vstd::prelude::*;

verus! {

/// A machine tag.
#[derive(Debug, Clone)]
pub struct MachineTag {
    pub id: i32,
    pub tag_name: String,
    pub description: Option<String>,
    pub category: Option<String>,
    pub is_active: bool,
    pub created_at: i64,
}

/// A tag bound to a machine user.
#[derive(Debug, Clone, Copy, PartialEq, Eq)]
pub struct MachineUserTag {
    pub id: i32,
    pub machine_user_id: i32,
    pub tag_id: i32,
    pub created_at: i64,
}

/// A machine user together with its tags.
#[derive(Debug, Clone)]
pub struct MachineUserWithTags {
    pub id: i32,
    pub machine_code: String,
    pub user_uuid: Option<u128>,
    pub platform: Option<String>,
    pub bind_time: i64,
    pub status: String,
    pub version_info: Option<serde_json::Value>,
    pub created_at: i64,
    pub updated_at: Option<i64>,
    pub tags: Vec<MachineTag>,
}

} // verus!
