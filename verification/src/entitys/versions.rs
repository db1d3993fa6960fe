//! Requests and responses about versions.
use vstd::prelude::*;

use std::collections::HashMap;

use crate::dto::versions::Version;

verus! {

/// Publish a version.
#[derive(Debug)]
pub struct CreateVersionRequest {
    pub type_id: i32,
    pub resource_name: String,
    pub version: String,
    pub name: Option<String>,
    pub notes: Option<String>,
    pub platform: Option<String>,
    pub url: Option<String>,
    pub hash: Option<String>,
    pub signature: Option<String>,
    pub install_path: Option<String>,
    pub file_size: Option<i32>,
    pub pub_date: Option<i64>,
}

/// Update a version; absent fields stay as they are.
#[derive(Debug)]
pub struct UpdateVersionRequest {
    pub id: i32,
    pub name: Option<String>,
    pub notes: Option<String>,
    pub platform: Option<String>,
    pub url: Option<String>,
    pub hash: Option<String>,
    pub signature: Option<String>,
    pub install_path: Option<String>,
    pub file_size: Option<i32>,
    pub status: Option<String>,
    pub is_latest: Option<bool>,
}

/// A page of versions and their count.
#[derive(Debug)]
pub struct VersionListResponse {
    pub total: i64,
    pub list: Vec<Version>,
}

/// Filters of the version list.
#[derive(Debug)]
pub struct QueryVersionParams {
    pub resource_name: Option<String>,
    pub platform: Option<String>,
    pub status: Option<String>,
}

/// Get a version by id, or by resource name, version and platform.
#[derive(Debug)]
pub struct GetVersionParams {
    pub id: Option<i32>,
    pub resource_name: Option<String>,
    pub version: Option<String>,
    pub platform: Option<String>,
}

/// List versions, a page at a time.
#[derive(Debug)]
pub struct QueryVersionsParams {
    pub resource_name: Option<String>,
    pub platform: Option<String>,
    pub status: Option<String>,
    pub page_num: Option<i32>,
    pub page_size: Option<i32>,
}

/// Make a version the latest of its resource.
#[derive(Debug)]
pub struct SetLatestVersionRequest {
    pub type_id: i32,
    pub resource_name: String,
    pub version_id: i32,
}

/// Delete a version.
#[derive(Debug)]
pub struct DeleteVersionRequest {
    pub id: i32,
}

/// Ask for the versions a machine should run; the machine code decides the
/// gray release.
#[derive(Debug)]
pub struct CheckVersionRequestParam {
    pub machine_code: Option<String>,
}

/// The versions a machine should run, by type code, and whether they come
/// from a gray release.
#[derive(Debug)]
pub struct CheckVersionResponse {
    pub is_gray: bool,
    pub versions: HashMap<String, Vec<Version>>,
}

} // verus!
