//! Published versions of resources.
use vstd::prelude::*;

verus! {

/// A published version of a resource on a platform.
#[derive(Debug, Clone)]
pub struct Version {
    pub id: i32,
    pub type_id: i32,
    pub resource_name: String,
    pub version: String,
    pub name: Option<String>,
    pub notes: Option<String>,
    pub platform: Option<String>,
    pub url: Option<String>,
    pub hash: Option<String>,
    pub signature: Option<String>,
    pub install_path: Option<String>,
    pub file_size: Option<i32>,
    pub is_latest: bool,
    pub status: String,
    pub pub_date: Option<i64>,
    pub created_at: i64,
    pub updated_at: Option<i64>,
    pub deleted_at: Option<i64>,
}

} // verus!
