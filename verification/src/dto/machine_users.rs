//! Machines and the users bound to them.
use vstd::prelude::*;

verus! {

/// A machine, possibly bound to a user.
#[derive(Debug, Clone)]
pub struct MachineUser {
    pub id: i32,
    pub machine_code: String,
    pub user_uuid: Option<u128>,
    pub platform: Option<String>,
    pub bind_time: i64,
    pub status: String,
    pub version_info: Option<serde_json::Value>,
    pub hardware_hash: Option<String>,
    pub hardware_raw: Option<String>,
    pub allow: bool,
    pub created_at: i64,
    pub updated_at: Option<i64>,
}

} // verus!
