//! Requests about console administrators and permissions.
use vstd::prelude::*;

verus! {

/// Make a user a console administrator.
#[derive(Debug, Clone, Copy)]
pub struct CreateConsoleAdminRequest {
    pub user_uuid: u128,
}

/// Update an administrator; an absent field changes nothing.
#[derive(Debug, Clone, Copy, Default)]
pub struct UpdateConsoleAdminRequest {
    pub is_active: Option<bool>,
}

/// Create the permission of a route and method.
#[derive(Debug, Clone)]
pub struct CreateConsolePermissionRequest {
    pub route_path: String,
    pub method: String,
    pub description: Option<String>,
}

/// Grant a permission to an administrator.
#[derive(Debug, Clone, Copy)]
pub struct GrantConsolePermissionRequest {
    pub admin_id: i32,
    pub permission_id: i32,
}

} // verus!
