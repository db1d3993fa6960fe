//! Console administrators and their route permissions.
use vstd::prelude::*;

verus! {

/// A console administrator.
#[derive(Debug, Clone)]
pub struct ConsoleAdminDto {
    pub id: i32,
    pub uuid: u128,
    pub user_uuid: u128,
    pub is_active: bool,
    pub created_at: i64,
    pub updated_at: i64,
    pub deleted_at: Option<i64>,
}

/// A permission to call one route with one method.
#[derive(Debug, Clone)]
pub struct ConsolePermissionDto {
    pub id: i32,
    pub uuid: u128,
    pub route_path: String,
    pub method: String,
    pub description: Option<String>,
    pub created_at: i64,
    pub updated_at: i64,
    pub deleted_at: Option<i64>,
}

/// A permission granted to an administrator.
#[derive(Debug, Clone)]
pub struct ConsoleAdminPermissionDto {
    pub id: i32,
    pub uuid: u128,
    pub admin_id: i32,
    pub permission_id: i32,
    pub granted_at: i64,
    pub granted_by: Option<u128>,
}

} // verus!
