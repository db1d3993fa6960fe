//! API keys of users, user preferences and system settings.
use vstd::prelude::*;

verus! {

/// A user's API key as stored, hash included.
#[derive(Debug, Clone)]
pub struct ApiKeyDto {
    pub id: i32,
    pub uuid: u128,
    pub user_uuid: u128,
    pub name: String,
    pub key_hash: String,
    pub key_prefix: String,
    pub permissions: serde_json::Value,
    pub rate_limit: Option<i32>,
    pub daily_limit: Option<i32>,
    pub ip_whitelist: Option<serde_json::Value>,
    pub expires_at: Option<i64>,
    pub usage_count: Option<i64>,
    pub daily_usage: Option<i32>,
    pub last_used_at: Option<i64>,
    pub status: String,
    pub created_at: i64,
    pub updated_at: i64,
}

/// A user's preferences.
#[derive(Debug, Clone)]
pub struct UserPreferenceDto {
    pub id: i32,
    pub user_uuid: u128,
    pub theme: String,
    pub language: String,
    pub notifications_enabled: bool,
    pub created_at: i64,
    pub updated_at: i64,
}

/// A system setting.
#[derive(Debug, Clone)]
pub struct SystemConfigDto {
    pub id: i32,
    pub config_key: String,
    pub config_value: serde_json::Value,
    pub description: Option<String>,
    pub created_at: i64,
    pub updated_at: i64,
}

} // verus!
