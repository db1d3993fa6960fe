//! Console API keys.
use vstd::prelude::*;

verus! {

/// A console API key: the client sends `key_id:key_secret`.
#[derive(Debug, Clone)]
pub struct ConsoleApiKeyDto {
    pub id: i32,
    pub uuid: u128,
    pub key_id: String,
    pub key_secret: String,
    pub name: String,
    pub description: Option<String>,
    pub is_active: bool,
    pub created_at: i64,
    pub updated_at: i64,
    pub expires_at: Option<i64>,
    pub last_used_at: Option<i64>,
    pub created_by: Option<u128>,
    pub deleted_at: Option<i64>,
}

} // verus!
