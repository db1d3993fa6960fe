//! Requests and responses about machines in gray releases.
use vstd::prelude::*;

use crate::dto::gray_releases::GrayRelease;
use crate::dto::machine_gray_allocations::MachineGrayAllocation;

verus! {

/// Allocate a machine to a gray release.
#[derive(Debug)]
pub struct AllocateMachineRequest {
    pub machine_code: String,
    pub gray_release_id: i32,
    pub effective_time: Option<i64>,
    pub notes: Option<String>,
}

/// Allocate several machines to a gray release.
#[derive(Debug)]
pub struct BatchAllocateMachineRequest {
    pub machine_codes: Vec<String>,
    pub gray_release_id: i32,
    pub effective_time: Option<i64>,
    pub notes: Option<String>,
}

/// A page of allocations and their count.
#[derive(Debug)]
pub struct AllocationListResponse {
    pub total: i64,
    pub list: Vec<MachineGrayAllocation>,
}

/// Release a machine from a gray release.
#[derive(Debug)]
pub struct DeallocateMachineRequest {
    pub machine_code: String,
    pub gray_release_id: i32,
}

/// List the allocations of a gray release.
#[derive(Debug)]
pub struct ListAllocationsByReleaseRequest {
    pub gray_release_id: i32,
    pub page_num: Option<i32>,
    pub page_size: Option<i32>,
}

/// Ask whether a machine is in a gray release.
#[derive(Debug)]
pub struct CheckMachineInGrayRequest {
    pub machine_code: String,
}

/// Whether a machine is in a gray release, and which.
#[derive(Debug)]
pub struct CheckMachineInGrayResponse {
    pub in_gray: bool,
    pub gray_release_id: Option<i32>,
    pub gray_release: Option<GrayRelease>,
}

} // verus!
