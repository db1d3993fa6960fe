//! API-key handlers: the list response.
use vstd::prelude::*;

use crate::entitys::api_service::{ApiKeyItem, ApiKeysListResponse, ListApiKeysRequest};
use crate::handlers::reply::Reply;

verus! {

/// The page of keys as answered (`获取成功`): the items and count the
/// service found, under the page and page size that were asked for.
pub fn get_api_keys_handler(payload: &ListApiKeysRequest, items: Vec<ApiKeyItem>, total: i64) -> (r:
    Reply<ApiKeysListResponse>)
    ensures
        r.message@ == "获取成功"@,
        r.data.items == items,
        r.data.total == total,
        r.data.page == payload.pagination.page,
        r.data.page_size == payload.pagination.page_size,
{
    Reply {
        message: "获取成功",
        data: ApiKeysListResponse {
            items,
            total,
            page: payload.pagination.page,
            page_size: payload.pagination.page_size,
        },
    }
}

} // verus!
