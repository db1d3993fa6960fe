//! Requests and responses of the API-key service.
use vstd::prelude::*;

use crate::dto::ApiKeyDto;
use crate::entitys::Pagination;

verus! {

/// Create an API key.
#[derive(Debug, Clone)]
pub struct CreateApiKeyRequest {
    pub name: String,
    pub permissions: Vec<String>,
    pub rate_limit: Option<i32>,
    pub daily_limit: Option<i32>,
    pub ip_whitelist: Option<Vec<String>>,
    pub expires_at: Option<i64>,
}

/// Reset an API key.
#[derive(Debug, Clone, Copy)]
pub struct ResetApiKeyRequest {
    pub uuid: u128,
}

/// Delete an API key.
#[derive(Debug, Clone, Copy)]
pub struct DeleteApiKeyRequest {
    pub uuid: u128,
}

/// Usage statistics over a range of dates.
#[derive(Debug, Clone)]
pub struct ApiStatsRequest {
    pub date_from: Option<String>,
    pub date_to: Option<String>,
}

/// List the caller's API keys.
#[derive(Debug, Clone)]
pub struct ListApiKeysRequest {
    pub pagination: Pagination,
    pub status: Option<String>,
}

/// Update an API key; absent fields stay as they are.
#[derive(Debug, Clone)]
pub struct UpdateApiKeyRequest {
    pub uuid: u128,
    pub name: Option<String>,
    pub permissions: Option<Vec<String>>,
    pub rate_limit: Option<i32>,
    pub daily_limit: Option<i32>,
    pub ip_whitelist: Option<Vec<String>>,
}

/// Revoke an API key.
#[derive(Debug, Clone, Copy)]
pub struct RevokeApiKeyRequest {
    pub uuid: u128,
}

/// A page of API keys.
#[derive(Debug, Clone)]
pub struct ApiKeysListResponse {
    pub items: Vec<ApiKeyItem>,
    pub total: i64,
    pub page: i64,
    pub page_size: i64,
}

/// An API key as shown to its owner: no hash, no internal ids.
#[derive(Debug, Clone)]
pub struct ApiKeyItem {
    pub uuid: u128,
    pub name: String,
    pub key_prefix: String,
    pub permissions: serde_json::Value,
    pub rate_limit: Option<i32>,
    pub daily_limit: Option<i32>,
    pub ip_whitelist: Option<serde_json::Value>,
    pub expires_at: Option<i64>,
    pub usage_count: Option<i64>,
    pub last_used_at: Option<i64>,
    pub status: String,
    pub created_at: i64,
}

/// A new API key, shown once.
#[derive(Debug, Clone)]
pub struct CreateApiKeyResponse {
    pub uuid: u128,
    pub api_key: String,
    pub key_prefix: String,
}

/// The item of a stored key: the same fields, without the hash, the row id,
/// the owner, the daily usage and the update time.
pub open spec fn spec_api_key_item(dto: ApiKeyDto) -> ApiKeyItem {
    ApiKeyItem {
        uuid: dto.uuid,
        name: dto.name,
        key_prefix: dto.key_prefix,
        permissions: dto.permissions,
        rate_limit: dto.rate_limit,
        daily_limit: dto.daily_limit,
        ip_whitelist: dto.ip_whitelist,
        expires_at: dto.expires_at,
        usage_count: dto.usage_count,
        last_used_at: dto.last_used_at,
        status: dto.status,
        created_at: dto.created_at,
    }
}

/// The item of a stored key shows each of the key's shown fields
/// unchanged.
pub proof fn lemma_api_key_item_keeps_fields(dto: ApiKeyDto)
    ensures
        spec_api_key_item(dto).uuid == dto.uuid,
        spec_api_key_item(dto).name == dto.name,
        spec_api_key_item(dto).key_prefix == dto.key_prefix,
        spec_api_key_item(dto).permissions == dto.permissions,
        spec_api_key_item(dto).rate_limit == dto.rate_limit,
        spec_api_key_item(dto).daily_limit == dto.daily_limit,
        spec_api_key_item(dto).ip_whitelist == dto.ip_whitelist,
        spec_api_key_item(dto).expires_at == dto.expires_at,
        spec_api_key_item(dto).usage_count == dto.usage_count,
        spec_api_key_item(dto).last_used_at == dto.last_used_at,
        spec_api_key_item(dto).status == dto.status,
        spec_api_key_item(dto).created_at == dto.created_at,
{
}

impl From<ApiKeyDto> for ApiKeyItem {
    fn from(dto: ApiKeyDto) -> (r: ApiKeyItem)
        ensures
            r.uuid == dto.uuid,
            r.name == dto.name,
            r.key_prefix == dto.key_prefix,
            r.permissions == dto.permissions,
            r.rate_limit == dto.rate_limit,
            r.daily_limit == dto.daily_limit,
            r.ip_whitelist == dto.ip_whitelist,
            r.expires_at == dto.expires_at,
            r.usage_count == dto.usage_count,
            r.last_used_at == dto.last_used_at,
            r.status == dto.status,
            r.created_at == dto.created_at,
    {
        ApiKeyItem {
            uuid: dto.uuid,
            name: dto.name,
            key_prefix: dto.key_prefix,
            permissions: dto.permissions,
            rate_limit: dto.rate_limit,
            daily_limit: dto.daily_limit,
            ip_whitelist: dto.ip_whitelist,
            expires_at: dto.expires_at,
            usage_count: dto.usage_count,
            last_used_at: dto.last_used_at,
            status: dto.status,
            created_at: dto.created_at,
        }
    }
}

impl vstd::std_specs::convert::FromSpecImpl<ApiKeyDto> for ApiKeyItem {
    open spec fn obeys_from_spec() -> bool {
        true
    }

    open spec fn from_spec(v: ApiKeyDto) -> ApiKeyItem {
        spec_api_key_item(v)
    }
}

} // verus!
