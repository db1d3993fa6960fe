//! Requests about the versions of gray releases.
use vstd::prelude::*;

verus! {

/// Add a version to a gray release.
#[derive(Debug)]
pub struct CreateGrayResourceRequest {
    pub gray_release_id: i32,
    pub version_id: i32,
    pub sort_order: Option<i32>,
}

/// Add several versions to a gray release, in order.
#[derive(Debug)]
pub struct BatchCreateGrayResourceRequest {
    pub gray_release_id: i32,
    pub version_ids: Vec<i32>,
}

/// Remove a version from its gray release.
#[derive(Debug)]
pub struct RemoveGrayResourceRequest {
    pub id: i32,
}

/// Move a version within its gray release.
#[derive(Debug)]
pub struct UpdateResourceSortOrderRequest {
    pub id: i32,
    pub sort_order: i32,
}

/// List the versions of a gray release.
#[derive(Debug)]
pub struct ListGrayResourcesRequest {
    pub gray_release_id: i32,
}

} // verus!
