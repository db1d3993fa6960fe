use simprint_server::dto::{ApiKeyDto, ConsoleApiKeyDto};
use simprint_server::entitys::api_service::{ApiKeyItem, ListApiKeysRequest};
use simprint_server::entitys::Pagination;
use simprint_server::handlers::api::get_api_keys_handler;
use simprint_server::models::apikey::{
    create_api_key, generate_api_secret, secret_from_indices, validate_api_key,
    validate_api_key_now,
    API_KEY_LIST_DEFAULT_LIMIT, API_SECRET_LENGTH,
};

fn console_key(expires_at: Option<i64>) -> ConsoleApiKeyDto {
    ConsoleApiKeyDto {
        id: 1,
        uuid: 7,
        key_id: "kid".to_string(),
        key_secret: "sec".to_string(),
        name: "ci".to_string(),
        description: None,
        is_active: true,
        created_at: 0,
        updated_at: 0,
        expires_at,
        last_used_at: None,
        created_by: None,
        deleted_at: None,
    }
}

fn api_key_dto() -> ApiKeyDto {
    ApiKeyDto {
        id: 3,
        uuid: 0xabc,
        user_uuid: 0xdef,
        name: "deploy".to_string(),
        key_hash: "hash".to_string(),
        key_prefix: "sk_12".to_string(),
        permissions: serde_json::Value::Array(vec![serde_json::Value::String(
            "env.read".to_string(),
        )]),
        rate_limit: Some(60),
        daily_limit: None,
        ip_whitelist: None,
        expires_at: Some(99),
        usage_count: Some(5),
        daily_usage: Some(2),
        last_used_at: None,
        status: "active".to_string(),
        created_at: 10,
        updated_at: 11,
    }
}

#[test]
fn secrets_are_long_alphanumeric() {
    assert_eq!(API_SECRET_LENGTH, 64);
    let s = generate_api_secret();
    assert_eq!(s.chars().count(), 64);
    assert!(s.chars().all(|c| c.is_ascii_alphanumeric()));
}

#[test]
fn new_key_is_uuid_and_secret() {
    let (key_id, secret) = create_api_key();
    assert_eq!(key_id.len(), 36);
    assert!(uuid::Uuid::parse_str(&key_id).is_ok());
    assert_eq!(key_id, key_id.to_lowercase());
    assert!(!key_id.contains(':'));
    assert_eq!(secret.len(), 64);
    assert!(!secret.contains(':'));
    let (other_id, other_secret) = create_api_key();
    assert_ne!(key_id, other_id);
    assert_ne!(secret, other_secret);
}

#[test]
fn validation_drops_expired_keys() {
    let kept = |expires: Option<i64>, secs: i64, nanos: u32| {
        validate_api_key(Some(console_key(expires)), secs, nanos).map(|k| k.id) == Some(1)
    };
    assert!(validate_api_key(None, 100, 0).is_none());
    assert!(kept(None, 100, 0));
    // expiry at 100 s exactly, in microseconds
    assert!(kept(Some(100_000_000), 100, 0));
    assert!(!kept(Some(100_000_000), 100, 1));
    assert!(kept(Some(100_000_000), 99, 999_999_999));
    assert!(!kept(Some(100_000_000), 101, 0));
    // one microsecond later: only a nanosecond past it has expired
    assert!(kept(Some(100_000_001), 100, 1_000));
    assert!(!kept(Some(100_000_001), 100, 1_001));
    // a leap second still belongs to the second before
    assert!(kept(Some(100_000_000), 99, 1_500_000_000));
    assert!(!kept(Some(99_999_999), 99, 1_500_000_000));
    // expiries before the epoch
    assert!(!kept(Some(-1), 0, 0));
    assert!(kept(Some(-1), -1, 999_999_000));
    assert!(!kept(Some(-1), -1, 999_999_001));
}

#[test]
fn validation_against_the_clock() {
    assert!(validate_api_key_now(None).is_none());
    assert!(validate_api_key_now(Some(console_key(None))).is_some());
    assert!(validate_api_key_now(Some(console_key(Some(0)))).is_none());
    assert!(validate_api_key_now(Some(console_key(Some(i64::MAX)))).is_some());
}

#[test]
fn key_item_drops_internal_fields() {
    let item = ApiKeyItem::from(api_key_dto());
    assert_eq!(item.uuid, 0xabc);
    assert_eq!(item.name, "deploy");
    assert_eq!(item.key_prefix, "sk_12");
    assert_eq!(item.permissions, api_key_dto().permissions);
    assert_eq!(item.rate_limit, Some(60));
    assert_eq!(item.daily_limit, None);
    assert_eq!(item.expires_at, Some(99));
    assert_eq!(item.usage_count, Some(5));
    assert_eq!(item.status, "active");
    assert_eq!(item.created_at, 10);
}

#[test]
fn key_list_response_keeps_page() {
    assert_eq!(API_KEY_LIST_DEFAULT_LIMIT, 50);
    let req = ListApiKeysRequest {
        pagination: Pagination {
            page: 2,
            page_size: 15,
        },
        status: None,
    };
    let items = vec![ApiKeyItem::from(api_key_dto())];
    let r = get_api_keys_handler(&req, items, 31);
    assert_eq!(r.message, "获取成功");
    assert_eq!(r.data.items.len(), 1);
    assert_eq!(r.data.items[0].uuid, 0xabc);
    assert_eq!((r.data.total, r.data.page, r.data.page_size), (31, 2, 15));
}

#[test]
fn secret_characters_come_from_their_indices() {
    assert_eq!(secret_from_indices(&vec![0, 25, 26, 51, 52, 61]), "AZaz09");
    assert_eq!(secret_from_indices(&vec![]), "");
    assert_eq!(secret_from_indices(&vec![7; 64]), "H".repeat(64));
}
