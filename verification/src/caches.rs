//! The Redis keys under which the local-API gateway caches API keys,
//! permissions and rate-limit counters, and the rules for their lifetimes.
use vstd::prelude::*;

use crate::text::{decimal, decimal_string, is_prefix, lacks, text_eq};

verus! {

/// Seconds a cached API key stays in Redis.
pub const LOCAL_API_KEY_CACHE_TTL: u64 = 60 * 10;

/// Seconds a cached permission (or permission definition) stays in Redis.
pub const LOCAL_API_PERMISSION_CACHE_TTL: u64 = 60 * 10;

/// Lifetime of a per-minute rate counter, in seconds.
pub const MINUTE_WINDOW_SECONDS: i64 = 60;

/// Lifetime of a per-hour rate counter, in seconds.
pub const HOUR_WINDOW_SECONDS: i64 = 60 * 60;

/// Lifetime of a per-day rate counter, in seconds.
pub const DAY_WINDOW_SECONDS: i64 = 60 * 60 * 24;

/// What the gateway remembers of an API key between requests.
/// `user_uuid` is the UUID as a 128-bit number; `expires_at` is in
/// microseconds since the Unix epoch.
#[derive(Debug, Clone)]
pub struct LocalApiKeyCache {
    pub id: i32,
    pub user_uuid: u128,
    pub is_active: bool,
    pub expires_at: Option<i64>,
    pub daily_limit: i32,
}

/// What the gateway remembers of one permission of one API key.
#[derive(Debug, Clone)]
pub struct LocalApiPermissionCache {
    pub is_enabled: bool,
    pub rate_limit_per_minute: i32,
    pub rate_limit_per_hour: i32,
}

pub open spec fn key_prefix_text() -> Seq<char> {
    "local_api:key"@
}

pub open spec fn permission_prefix_text() -> Seq<char> {
    "local_api:permission"@
}

pub open spec fn definition_prefix_text() -> Seq<char> {
    "local_api:permission_definition"@
}

pub open spec fn rate_prefix_text() -> Seq<char> {
    "local_api:rate"@
}

/// `local_api:key:{key_hash}`
pub open spec fn spec_key_cache_key(key_hash: Seq<char>) -> Seq<char> {
    key_prefix_text() + ":"@ + key_hash
}

/// `local_api:permission:{api_key_id}:{permission_code}`
pub open spec fn spec_permission_cache_key(api_key_id: int, code: Seq<char>) -> Seq<char> {
    permission_prefix_text() + ":"@ + decimal(api_key_id) + ":"@ + code
}

/// `local_api:permission_definition:{permission_code}`
pub open spec fn spec_definition_cache_key(code: Seq<char>) -> Seq<char> {
    definition_prefix_text() + ":"@ + code
}

/// `local_api:rate:{id}:{code}:{window_type}:{window_key}`, or without the
/// code segment when there is no permission code.
pub open spec fn spec_rate_cache_key(
    api_key_id: int,
    code: Option<Seq<char>>,
    window_type: Seq<char>,
    window_key: Seq<char>,
) -> Seq<char> {
    match code {
        Some(c) => rate_prefix_text() + ":"@ + decimal(api_key_id) + ":"@ + c + ":"@ + window_type
            + ":"@ + window_key,
        None => rate_prefix_text() + ":"@ + decimal(api_key_id) + ":"@ + window_type + ":"@
            + window_key,
    }
}

/// `local_api:permission:{api_key_id}:*`, the pattern that finds every
/// cached permission of one API key.
pub open spec fn spec_permission_pattern(api_key_id: int) -> Seq<char> {
    permission_prefix_text() + ":"@ + decimal(api_key_id) + ":"@ + "*"@
}

/// Whether a Redis pattern whose only wildcard is a final `*` matches `key`:
/// the pattern without its final `*` is a prefix of the key.
pub open spec fn trailing_star_matches(pattern: Seq<char>, key: Seq<char>) -> bool {
    pattern.len() >= 1 && pattern.last() == '*' && is_prefix(pattern.drop_last(), key)
}

/// Seconds a rate counter of the given window lives: a minute, an hour, or a
/// day for `"day"` and any other window name.
pub open spec fn spec_window_seconds(window_type: Seq<char>) -> i64 {
    if window_type == "minute"@ {
        MINUTE_WINDOW_SECONDS
    } else if window_type == "hour"@ {
        HOUR_WINDOW_SECONDS
    } else {
        DAY_WINDOW_SECONDS
    }
}

/// The cache key of an API key, by the hash of the key.
pub fn local_api_key_cache_key(key_hash: &str) -> (r: String)
    ensures
        r@ == spec_key_cache_key(key_hash@),
{
    let mut s = String::from_str("local_api:key");
    s.append(":");
    s.append(key_hash);
    s
}

/// The cache key of one permission of one API key.
pub fn local_api_permission_cache_key(api_key_id: i32, permission_code: &str) -> (r: String)
    ensures
        r@ == spec_permission_cache_key(api_key_id as int, permission_code@),
{
    let id = decimal_string(api_key_id as i64);
    let mut s = String::from_str("local_api:permission");
    s.append(":");
    s.append(id.as_str());
    s.append(":");
    s.append(permission_code);
    s
}

/// The cache key of a permission definition.
pub fn local_api_permission_definition_cache_key(permission_code: &str) -> (r: String)
    ensures
        r@ == spec_definition_cache_key(permission_code@),
{
    let mut s = String::from_str("local_api:permission_definition");
    s.append(":");
    s.append(permission_code);
    s
}

/// The key of a rate-limit counter of an API key, for one permission or for
/// the key as a whole, in one window.
pub fn local_api_rate_cache_key(
    api_key_id: i32,
    permission_code: Option<&str>,
    window_type: &str,
    window_key: &str,
) -> (r: String)
    ensures
        r@ == spec_rate_cache_key(
            api_key_id as int,
            match permission_code {
                Some(c) => Some(c@),
                None => None,
            },
            window_type@,
            window_key@,
        ),
{
    let id = decimal_string(api_key_id as i64);
    let mut s = String::from_str("local_api:rate");
    s.append(":");
    s.append(id.as_str());
    s.append(":");
    match permission_code {
        Some(code) => {
            s.append(code);
            s.append(":");
        },
        None => {},
    }
    s.append(window_type);
    s.append(":");
    s.append(window_key);
    s
}

/// The pattern under which every cached permission of one API key is found,
/// for deleting them together.
pub fn local_api_permission_cache_pattern(api_key_id: i32) -> (r: String)
    ensures
        r@ == spec_permission_pattern(api_key_id as int),
{
    let id = decimal_string(api_key_id as i64);
    let mut s = String::from_str("local_api:permission");
    s.append(":");
    s.append(id.as_str());
    s.append(":");
    s.append("*");
    s
}

/// Seconds a rate counter of the given window lives.
pub fn local_api_rate_window_seconds(window_type: &str) -> (r: i64)
    ensures
        r == spec_window_seconds(window_type@),
{
    if text_eq(window_type, "minute") {
        MINUTE_WINDOW_SECONDS
    } else if text_eq(window_type, "hour") {
        HOUR_WINDOW_SECONDS
    } else {
        DAY_WINDOW_SECONDS
    }
}

/// What to do after a rate counter was incremented to `count`: the counter
/// that has just been created (count 1) gets the lifetime of its window;
/// any later increment leaves the lifetime alone.
pub fn local_api_rate_counter_expiry(count: i64, window_type: &str) -> (r: Option<i64>)
    ensures
        r == (if count == 1 {
            Some(spec_window_seconds(window_type@))
        } else {
            None::<i64>
        }),
{
    if count == 1 {
        Some(local_api_rate_window_seconds(window_type))
    } else {
        None
    }
}

/// Two permissions of API keys share a cache key only when they are the
/// same permission of the same key: the cached entries never overwrite one
/// another.
pub proof fn lemma_permission_cache_keys_distinct(
    a: int,
    code_a: Seq<char>,
    b: int,
    code_b: Seq<char>,
)
    requires
        spec_permission_cache_key(a, code_a) == spec_permission_cache_key(b, code_b),
    ensures
        a == b,
        code_a == code_b,
{
    reveal_strlit(":");
    let head = permission_prefix_text() + ":"@;
    let da = decimal(a);
    let db = decimal(b);
    let ka = spec_permission_cache_key(a, code_a);
    let kb = spec_permission_cache_key(b, code_b);
    assert(ka == head + da + ":"@ + code_a);
    assert(kb == head + db + ":"@ + code_b);
    crate::text::lemma_decimal_lacks_colon(a);
    crate::text::lemma_decimal_lacks_colon(b);
    let h = head.len() as int;
    // the ':' after each rendering sits at the same place
    if da.len() < db.len() {
        assert(ka[h + da.len()] == ':');
        assert(kb[h + da.len()] == db[da.len() as int]);
    } else if db.len() < da.len() {
        assert(kb[h + db.len()] == ':');
        assert(ka[h + db.len()] == da[db.len() as int]);
    }
    assert(da.len() == db.len());
    assert forall|i: int| 0 <= i < da.len() implies da[i] == db[i] by {
        assert(ka[h + i] == da[i]);
        assert(kb[h + i] == db[i]);
    }
    assert(da == db);
    crate::text::lemma_decimal_injective(a, b);
    let start = h + da.len() + 1;
    assert(code_a =~= ka.subrange(start, ka.len() as int));
    assert(code_b =~= kb.subrange(start, kb.len() as int));
}

/// The pattern of one API key's permissions matches exactly the permission
/// keys of that API key: deleting the permission caches of one key removes
/// every permission cached for it and none cached for another key.
pub proof fn lemma_permission_pattern_matches_own_keys(
    api_key_id: int,
    other_id: int,
    code: Seq<char>,
)
    ensures
        trailing_star_matches(
            spec_permission_pattern(api_key_id),
            spec_permission_cache_key(other_id, code),
        ) <==> api_key_id == other_id,
{
    reveal_strlit(":");
    reveal_strlit("*");
    let pat = spec_permission_pattern(api_key_id);
    let key = spec_permission_cache_key(other_id, code);
    let head = permission_prefix_text() + ":"@;
    let da = decimal(api_key_id);
    let db = decimal(other_id);
    let p = head + da + ":"@;
    assert(pat == p + "*"@);
    assert(pat.drop_last() == p);
    assert(key == head + db + ":"@ + code);
    crate::text::lemma_decimal_lacks_colon(api_key_id);
    crate::text::lemma_decimal_lacks_colon(other_id);
    let h = head.len() as int;
    if api_key_id == other_id {
        assert(key.subrange(0, p.len() as int) == p);
    }
    if is_prefix(p, key) {
        assert(key.subrange(0, p.len() as int) == p);
        // the ':' after each rendering sits at the same place
        if da.len() < db.len() {
            assert(p[h + da.len()] == ':');
            assert(key[h + da.len()] == db[da.len() as int]);
            assert(lacks(db, ':'));
        } else if db.len() < da.len() {
            assert(key[h + db.len()] == ':');
            assert(p[h + db.len()] == da[db.len() as int]);
            assert(lacks(da, ':'));
        }
        assert(da.len() == db.len());
        assert forall|i: int| 0 <= i < da.len() implies da[i] == db[i] by {
            assert(p[h + i] == da[i]);
            assert(key[h + i] == db[i]);
        }
        assert(da == db);
        crate::text::lemma_decimal_injective(api_key_id, other_id);
    }
}

} // verus!
