//! Requests and responses of the API. UUIDs are held as their 128-bit
//! numbers, instants as microseconds since the Unix epoch, JSON documents as
//! `serde_json::Value`.
pub mod api_service;
pub mod console_admin;
pub mod console_apikey;
pub mod extensions;
pub mod gray_releases;
pub mod gray_resources;
pub mod machine_gray_allocations;
pub mod machine_tags;
pub mod machine_users;
pub mod maintenance;
pub mod rpa;
pub mod strategy_types;
pub mod version_types;
pub mod versions;

use vstd::prelude::*;

verus! {

/// The page a list request asks for.
#[derive(Debug, Clone, Copy, PartialEq, Eq)]
pub struct Pagination {
    pub page: i64,
    pub page_size: i64,
}

/// A response that names one created entity.
#[derive(Debug, Clone, Copy, PartialEq, Eq)]
pub struct CreateResponse {
    pub uuid: u128,
}

} // verus!
