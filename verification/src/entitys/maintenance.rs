//! Requests and responses about maintenance windows and health.
use vstd::prelude::*;

verus! {

/// Get a maintenance window.
#[derive(Debug)]
pub struct GetMaintenanceParams {
    pub id: i64,
}

/// List maintenance windows.
#[derive(Debug)]
pub struct QueryMaintenancesParams {
    pub limit: Option<i32>,
    pub offset: Option<i32>,
}

/// Set the status of a maintenance window.
#[derive(Debug)]
pub struct UpdateMaintenanceStatusRequest {
    pub id: i64,
    pub status: String,
}

/// The answer of the health check.
#[derive(Debug)]
pub struct HealthResponse {
    pub status: String,
    pub timestamp: String,
}

} // verus!
