//! Requests and responses about version types. `display_name` is the field
//! `type_name` of the API.
use vstd::prelude::*;

use crate::dto::version_types::VersionType;

verus! {

/// Create a version type.
#[derive(Debug)]
pub struct CreateVersionTypeRequest {
    pub type_code: String,
    pub display_name: String,
    pub description: Option<String>,
    pub sort_order: Option<i32>,
}

/// Update a version type; absent fields stay as they are.
#[derive(Debug)]
pub struct UpdateVersionTypeRequest {
    pub id: i32,
    pub display_name: Option<String>,
    pub description: Option<String>,
    pub sort_order: Option<i32>,
    pub is_active: Option<bool>,
}

/// Version types.
#[derive(Debug)]
pub struct VersionTypeListResponse {
    pub list: Vec<VersionType>,
}

/// Get a version type.
#[derive(Debug)]
pub struct GetVersionTypeParams {
    pub id: i32,
}

/// Delete a version type.
#[derive(Debug)]
pub struct DeleteVersionTypeRequest {
    pub id: i32,
}

} // verus!
