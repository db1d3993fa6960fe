//! Requests and responses of the RPA workflow service.
use vstd::prelude::*;

use crate::entitys::Pagination;

verus! {

/// List RPA tasks.
#[derive(Debug, Clone)]
pub struct ListRpaTasksRequest {
    pub pagination: Pagination,
    pub filters: Option<RpaTaskFilters>,
}

/// Filters of the task list.
#[derive(Debug, Clone)]
pub struct RpaTaskFilters {
    pub keyword: Option<String>,
    pub status: Option<String>,
    pub trigger_type: Option<String>,
    pub tags: Option<Vec<String>>,
}

/// Create an RPA task.
#[derive(Debug, Clone)]
pub struct CreateRpaTaskRequest {
    pub name: String,
    pub description: Option<String>,
    pub tags: Option<Vec<String>>,
    pub trigger_type: String,
    pub schedule: Option<String>,
    pub cron_expression: Option<String>,
    pub run_mode: String,
    pub retry_count: Option<i32>,
    pub retry_interval: Option<i32>,
    pub timeout: Option<i32>,
    pub concurrency: Option<i32>,
    pub stop_on_error: Option<bool>,
    pub notify_on_complete: Option<bool>,
    pub notify_on_error: Option<bool>,
    pub environment_uuids: Option<Vec<u128>>,
    pub steps: Option<Vec<RpaTaskStepRequest>>,
}

/// A step of an RPA task.
#[derive(Debug, Clone)]
pub struct RpaTaskStepRequest {
    pub step_type: String,
    pub name: String,
    pub config: serde_json::Value,
    pub enabled: Option<bool>,
    pub position_x: Option<i32>,
    pub position_y: Option<i32>,
    pub sort_order: Option<i32>,
}

/// Update an RPA task; absent fields stay as they are.
#[derive(Debug, Clone)]
pub struct UpdateRpaTaskRequest {
    pub uuid: u128,
    pub name: Option<String>,
    pub description: Option<String>,
    pub tags: Option<Vec<String>>,
    pub trigger_type: Option<String>,
    pub schedule: Option<String>,
    pub cron_expression: Option<String>,
    pub run_mode: Option<String>,
    pub retry_count: Option<i32>,
    pub retry_interval: Option<i32>,
    pub timeout: Option<i32>,
    pub concurrency: Option<i32>,
    pub stop_on_error: Option<bool>,
    pub notify_on_complete: Option<bool>,
    pub notify_on_error: Option<bool>,
    pub environment_uuids: Option<Vec<u128>>,
    pub steps: Option<Vec<RpaTaskStepRequest>>,
}

/// Run an RPA task.
#[derive(Debug, Clone)]
pub struct RunRpaTaskRequest {
    pub uuid: u128,
    pub environment_uuids: Option<Vec<u128>>,
}

/// Copy an RPA task.
#[derive(Debug, Clone)]
pub struct DuplicateRpaTaskRequest {
    pub uuid: u128,
    pub new_name: Option<String>,
}

/// Export an RPA task.
#[derive(Debug, Clone, Copy)]
pub struct ExportRpaTaskRequest {
    pub uuid: u128,
}

/// Import an RPA task.
#[derive(Debug, Clone)]
pub struct ImportRpaTaskRequest {
    pub import_data: String,
    pub name: Option<String>,
}

/// List the runs of a task.
#[derive(Debug, Clone)]
pub struct ListRpaRunsRequest {
    pub task_uuid: u128,
    pub pagination: Pagination,
    pub status: Option<String>,
}

/// An exported task: its content and a file name.
#[derive(Debug, Clone)]
pub struct ExportRpaTaskResponse {
    pub content: String,
    pub filename: String,
}

} // verus!
