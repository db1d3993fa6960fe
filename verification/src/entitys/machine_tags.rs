//! Requests and responses about machine tags.
use vstd::prelude::*;

use crate::dto::machine_tags::MachineTag;

verus! {

/// Create a tag.
#[derive(Debug)]
pub struct CreateTagRequest {
    pub tag_name: String,
    pub description: Option<String>,
    pub category: Option<String>,
}

/// Filters of the tag list.
#[derive(Debug)]
pub struct QueryTagsParams {
    pub category: Option<String>,
    pub is_active: Option<bool>,
}

/// Tags and their count.
#[derive(Debug)]
pub struct TagListResponse {
    pub total: i64,
    pub list: Vec<MachineTag>,
}

/// Bind tags, by name, to a machine user.
#[derive(Debug)]
pub struct BindTagsToMachineUserRequest {
    pub machine_user_id: i32,
    pub tag_names: Vec<String>,
}

/// Unbind tags, by id, from a machine user.
#[derive(Debug)]
pub struct UnbindTagsFromMachineUserRequest {
    pub machine_user_id: i32,
    pub tag_ids: Vec<i32>,
}

} // verus!
