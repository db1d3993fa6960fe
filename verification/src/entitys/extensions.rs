//! Requests and responses of the extension service.
use vstd::prelude::*;

use crate::entitys::Pagination;

verus! {

/// List extensions.
#[derive(Debug, Clone)]
pub struct ListExtensionsRequest {
    pub pagination: Pagination,
    pub filters: Option<ExtensionFilters>,
}

/// The result of syncing one extension from the store.
#[derive(Debug, Clone)]
pub struct SyncExtensionResponse {
    pub uuid: u128,
    pub extension_id: String,
    pub created: bool,
}

/// Filters of the extension list.
#[derive(Debug, Clone)]
pub struct ExtensionFilters {
    pub keyword: Option<String>,
    pub category: Option<String>,
    pub installed_only: Option<bool>,
}

/// Install an extension for a user, team, group or environment.
#[derive(Debug, Clone)]
pub struct InstallExtensionRequest {
    pub extension_id: String,
    pub target_type: Option<String>,
    pub group_ids: Option<Vec<u128>>,
    pub env_uuid: Option<u128>,
}

/// Uninstall an extension.
#[derive(Debug, Clone)]
pub struct UninstallExtensionRequest {
    pub extension_id: String,
    pub target_type: Option<String>,
    pub target_uuid: Option<u128>,
}

/// Update one extension.
#[derive(Debug, Clone)]
pub struct UpdateExtensionRequest {
    pub extension_id: String,
}

/// Update several extensions.
#[derive(Debug, Clone)]
pub struct BatchUpdateExtensionsRequest {
    pub extension_ids: Vec<String>,
}

/// Name one extension.
#[derive(Debug, Clone)]
pub struct ExtensionIdRequest {
    pub extension_id: String,
}

/// The installed extensions, by scope: `all`, `user` or `team`.
#[derive(Debug, Clone)]
pub struct GetInstalledExtensionsRequest {
    pub scope: String,
}

/// The scope of the installed-extension list when the request names none.
pub fn default_scope() -> (r: String)
    ensures
        r@ == "all"@,
{
    String::from_str("all")
}

/// The number of extensions a batch update updated.
#[derive(Debug, Clone, Copy)]
pub struct BatchUpdateResponse {
    pub updated: u64,
}

} // verus!
