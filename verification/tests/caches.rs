use simprint_server::caches::{
    local_api_key_cache_key, local_api_permission_cache_key, local_api_permission_cache_pattern,
    local_api_permission_definition_cache_key, local_api_rate_cache_key,
    local_api_rate_counter_expiry, local_api_rate_window_seconds, DAY_WINDOW_SECONDS,
    HOUR_WINDOW_SECONDS, LOCAL_API_KEY_CACHE_TTL, LOCAL_API_PERMISSION_CACHE_TTL,
    MINUTE_WINDOW_SECONDS,
};

#[test]
fn key_cache_key_is_prefixed_hash() {
    assert_eq!(local_api_key_cache_key("abc123"), "local_api:key:abc123");
    assert_eq!(local_api_key_cache_key(""), "local_api:key:");
}

#[test]
fn permission_cache_key_has_id_and_code() {
    assert_eq!(
        local_api_permission_cache_key(7, "env.read"),
        "local_api:permission:7:env.read"
    );
    assert_eq!(
        local_api_permission_cache_key(-12, "x"),
        "local_api:permission:-12:x"
    );
    assert_eq!(
        local_api_permission_cache_key(i32::MAX, "c"),
        "local_api:permission:2147483647:c"
    );
    assert_eq!(
        local_api_permission_cache_key(i32::MIN, "c"),
        "local_api:permission:-2147483648:c"
    );
}

#[test]
fn permission_definition_cache_key_has_code() {
    assert_eq!(
        local_api_permission_definition_cache_key("env.write"),
        "local_api:permission_definition:env.write"
    );
}

#[test]
fn rate_cache_key_with_and_without_code() {
    assert_eq!(
        local_api_rate_cache_key(3, Some("env.read"), "minute", "202401011200"),
        "local_api:rate:3:env.read:minute:202401011200"
    );
    assert_eq!(
        local_api_rate_cache_key(3, None, "day", "20240101"),
        "local_api:rate:3:day:20240101"
    );
    assert_eq!(
        local_api_rate_cache_key(0, Some(""), "hour", "h"),
        "local_api:rate:0::hour:h"
    );
}

#[test]
fn permission_pattern_matches_own_keys_only() {
    let pattern = local_api_permission_cache_pattern(7);
    assert_eq!(pattern, "local_api:permission:7:*");
    let stem = &pattern[..pattern.len() - 1];
    assert!(local_api_permission_cache_key(7, "a.b").starts_with(stem));
    assert!(local_api_permission_cache_key(7, "").starts_with(stem));
    assert!(!local_api_permission_cache_key(70, "a.b").starts_with(stem));
    assert!(!local_api_permission_cache_key(-7, "a.b").starts_with(stem));
    assert!(!local_api_permission_cache_key(1, "7:a").starts_with(stem));
}

#[test]
fn cache_lifetimes() {
    assert_eq!(LOCAL_API_KEY_CACHE_TTL, 600);
    assert_eq!(LOCAL_API_PERMISSION_CACHE_TTL, 600);
    assert_eq!(MINUTE_WINDOW_SECONDS, 60);
    assert_eq!(HOUR_WINDOW_SECONDS, 3600);
    assert_eq!(DAY_WINDOW_SECONDS, 86400);
}

#[test]
fn rate_window_seconds_by_name() {
    assert_eq!(local_api_rate_window_seconds("minute"), 60);
    assert_eq!(local_api_rate_window_seconds("hour"), 3600);
    assert_eq!(local_api_rate_window_seconds("day"), 86400);
    assert_eq!(local_api_rate_window_seconds("week"), 86400);
    assert_eq!(local_api_rate_window_seconds(""), 86400);
    assert_eq!(local_api_rate_window_seconds("Minute"), 86400);
}

#[test]
fn rate_counter_expiry_only_on_first_increment() {
    assert_eq!(local_api_rate_counter_expiry(1, "minute"), Some(60));
    assert_eq!(local_api_rate_counter_expiry(1, "hour"), Some(3600));
    assert_eq!(local_api_rate_counter_expiry(1, "day"), Some(86400));
    assert_eq!(local_api_rate_counter_expiry(2, "minute"), None);
    assert_eq!(local_api_rate_counter_expiry(0, "minute"), None);
    assert_eq!(local_api_rate_counter_expiry(-1, "day"), None);
}

#[test]
fn permission_cache_keys_do_not_collide() {
    let a = local_api_permission_cache_key(1, "23:x");
    let b = local_api_permission_cache_key(12, "3:x");
    let c = local_api_permission_cache_key(123, "x");
    assert_ne!(a, b);
    assert_ne!(b, c);
    assert_ne!(a, c);
    assert_eq!(
        local_api_permission_cache_key(5, "p"),
        local_api_permission_cache_key(5, "p")
    );
}
