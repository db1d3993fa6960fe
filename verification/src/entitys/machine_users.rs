//! Requests and responses about machines and their users.
use vstd::prelude::*;

use crate::dto::machine_users::MachineUser;

verus! {

/// Register a machine, possibly bound to a user.
#[derive(Debug)]
pub struct CreateMachineUserRequest {
    pub machine_code: String,
    pub user_uuid: Option<u128>,
    pub platform: Option<String>,
    pub tags: Option<Vec<String>>,
    pub hardware_hash: Option<String>,
    pub hardware_raw: Option<String>,
    pub version_info: Option<String>,
}

/// Update a machine; absent fields stay as they are.
#[derive(Debug)]
pub struct UpdateMachineUserRequest {
    pub user_uuid: Option<u128>,
    pub platform: Option<String>,
    pub status: Option<String>,
    pub hardware_hash: Option<String>,
    pub hardware_raw: Option<String>,
}

/// A page of machines and their count.
#[derive(Debug)]
pub struct MachineUserListResponse {
    pub total: i64,
    pub list: Vec<MachineUser>,
}

/// Filters of the machine list; the user is a UUID in text form.
#[derive(Debug)]
pub struct QueryMachineUserParams {
    pub user_uuid: Option<String>,
    pub platform: Option<String>,
    pub status: Option<String>,
}

/// Get a machine by id or by machine code.
#[derive(Debug)]
pub struct GetMachineRequest {
    pub id: Option<i32>,
    pub machine_code: Option<String>,
}

/// List machines.
#[derive(Debug)]
pub struct QueryMachinesRequest {
    pub params: QueryMachineUserParams,
    pub page_num: Option<i32>,
    pub page_size: Option<i32>,
}

/// Update a machine by id.
#[derive(Debug)]
pub struct UpdateMachineRequest {
    pub id: i32,
    pub request: UpdateMachineUserRequest,
}

/// Bind a user to a machine.
#[derive(Debug)]
pub struct BindUserRequest {
    pub machine_code: String,
    pub user_uuid: u128,
}

/// Unbind a user from a machine.
#[derive(Debug)]
pub struct UnbindUserRequest {
    pub machine_code: String,
    pub user_uuid: u128,
}

/// The machines of a user.
#[derive(Debug)]
pub struct GetUserMachinesRequest {
    pub user_uuid: u128,
}

/// Record what versions a machine runs.
#[derive(Debug)]
pub struct UpdateMachineVersionRequest {
    pub machine_code: String,
    pub user_uuid: u128,
    pub version_info: serde_json::Value,
}

/// Blacklist a machine, or allow it again.
#[derive(Debug)]
pub struct AllowOrBlacklistMachineRequest {
    pub machine_code: String,
    pub allow: bool,
}

} // verus!
