//! Requests and responses about gray releases.
use vstd::prelude::*;

use crate::dto::gray_releases::GrayRelease;

verus! {

/// Create a gray release over some versions.
#[derive(Debug)]
pub struct CreateGrayReleaseRequest {
    pub name: String,
    pub description: Option<String>,
    pub platform: String,
    pub start_time: i64,
    pub end_time: Option<i64>,
    pub max_machines: Option<i32>,
    pub priority: Option<i32>,
    pub strategy_type: Option<String>,
    pub strategy_config: Option<serde_json::Value>,
    pub version_ids: Vec<i32>,
    pub auto_start: bool,
}

/// Start a gray release.
#[derive(Debug)]
pub struct StartGrayReleaseRequest {
    pub gray_release_id: i32,
}

/// Stop a gray release.
#[derive(Debug)]
pub struct StopGrayReleaseRequest {
    pub gray_release_id: i32,
}

/// Get a gray release.
#[derive(Debug)]
pub struct GetGrayReleaseRequest {
    pub gray_release_id: i32,
}

/// List gray releases.
#[derive(Debug)]
pub struct ListGrayReleasesRequest {
    pub platform: Option<String>,
    pub status: Option<String>,
    pub page: Option<i32>,
    pub page_size: Option<i32>,
}

/// A page of gray releases and their count.
#[derive(Debug)]
pub struct GrayReleaseListResponse {
    pub total: i64,
    pub list: Vec<GrayRelease>,
}

/// Update a gray release; absent fields stay as they are.
#[derive(Debug)]
pub struct UpdateGrayReleaseRequest {
    pub gray_release_id: i32,
    pub name: Option<String>,
    pub description: Option<String>,
    pub status: Option<String>,
    pub end_time: Option<i64>,
    pub max_machines: Option<i32>,
    pub priority: Option<i32>,
    pub strategy_type: Option<String>,
    pub strategy_config: Option<serde_json::Value>,
}

/// Delete a gray release.
#[derive(Debug)]
pub struct DeleteGrayReleaseRequest {
    pub gray_release_id: i32,
}

} // verus!
