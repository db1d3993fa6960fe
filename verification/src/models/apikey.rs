//! Console API keys: making new credentials and deciding whether a stored
//! key may still be used.
use vstd::prelude::*;

use crate::clock::now_timestamp;
use crate::dto::ConsoleApiKeyDto;
use crate::ids::{is_uuid_text_char, new_uuid_text, random_index};
use crate::text::lacks;

verus! {

/// Length of a generated key secret.
pub const API_SECRET_LENGTH: usize = 64;

/// Default page size of the key list.
pub const API_KEY_LIST_DEFAULT_LIMIT: i64 = 50;

/// The characters of a key secret: ASCII letters and digits.
pub open spec fn secret_charset() -> Seq<char> {
    "ABCDEFGHIJKLMNOPQRSTUVWXYZabcdefghijklmnopqrstuvwxyz0123456789"@
}

/// A secret as `generate_api_secret` makes it: 64 characters of the charset.
pub open spec fn is_api_secret(s: Seq<char>) -> bool {
    s.len() == API_SECRET_LENGTH && forall|i: int|
        0 <= i < s.len() ==> secret_charset().contains(#[trigger] s[i])
}

/// A key id as `create_api_key` makes it: a UUID in hyphenated lower-case
/// form.
pub open spec fn is_api_key_id(s: Seq<char>) -> bool {
    s.len() == 36 && forall|i: int| 0 <= i < s.len() ==> is_uuid_text_char(#[trigger] s[i])
}

proof fn lemma_charset()
    ensures
        secret_charset().len() == 62,
        !secret_charset().contains(':'),
{
    reveal_strlit("ABCDEFGHIJKLMNOPQRSTUVWXYZabcdefghijklmnopqrstuvwxyz0123456789");
    let cs = secret_charset();
    assert forall|i: int| 0 <= i < cs.len() implies cs[i] != ':' by {}
}

/// Neither a key id nor a secret holds a `':'`.
pub proof fn lemma_credentials_lack_colon(key_id: Seq<char>, secret: Seq<char>)
    requires
        is_api_key_id(key_id),
        is_api_secret(secret),
    ensures
        lacks(key_id, ':'),
        lacks(secret, ':'),
{
    lemma_charset();
    assert forall|i: int| 0 <= i < secret.len() implies secret[i] != ':' by {
        assert(secret_charset().contains(secret[i]));
    }
    assert forall|i: int| 0 <= i < key_id.len() implies key_id[i] != ':' by {
        assert(is_uuid_text_char(key_id[i]));
    }
}

/// The text whose characters are those of the charset at the given
/// indices, in order.
pub open spec fn spec_secret_from_indices(indices: Seq<usize>) -> Seq<char> {
    Seq::new(indices.len(), |k: int| secret_charset()[indices[k] as int])
}

/// Indices that each pick a character of the charset.
pub open spec fn charset_indices(indices: Seq<usize>) -> bool {
    forall|k: int| 0 <= k < indices.len() ==> #[trigger] indices[k] < 62
}

/// The characters of the charset at the given indices, in order.
pub fn secret_from_indices(indices: &Vec<usize>) -> (r: String)
    requires
        charset_indices(indices@),
    ensures
        r@ == spec_secret_from_indices(indices@),
{
    proof {
        lemma_charset();
    }
    let charset = "ABCDEFGHIJKLMNOPQRSTUVWXYZabcdefghijklmnopqrstuvwxyz0123456789";
    let mut r = String::new();
    let n = indices.len();
    let mut k: usize = 0;
    while k < n
        invariant
            n == indices@.len(),
            charset_indices(indices@),
            charset@ == secret_charset(),
            secret_charset().len() == 62,
            k <= n,
            r@ == spec_secret_from_indices(indices@.take(k as int)),
        decreases n - k,
    {
        let idx = indices[k];
        assert(idx < 62);
        let piece = charset.substring_char(idx, idx + 1);
        let ghost before = r@;
        r.append(piece);
        assert(r@ =~= spec_secret_from_indices(indices@.take(k + 1))) by {
            assert(piece@.len() == 1);
            assert(piece@[0] == secret_charset()[idx as int]);
            assert(indices@.take(k + 1)[k as int] == idx);
            assert forall|j: int| 0 <= j < k implies indices@.take(k + 1)[j] == indices@.take(
                k as int,
            )[j] by {}
        }
        k = k + 1;
    }
    assert(indices@.take(n as int) =~= indices@);
    r
}

/// Charset characters make a secret when there are 64 of them.
proof fn lemma_secret_from_indices(indices: Seq<usize>)
    requires
        charset_indices(indices),
        indices.len() == API_SECRET_LENGTH,
    ensures
        is_api_secret(spec_secret_from_indices(indices)),
{
    lemma_charset();
    let s = spec_secret_from_indices(indices);
    assert forall|i: int| 0 <= i < s.len() implies secret_charset().contains(#[trigger] s[i]) by {
        assert(indices[i] < 62);
        assert(s[i] == secret_charset()[indices[i] as int]);
    }
}

/// A new random key secret: 64 characters of the charset, each at an index
/// drawn at random. Which indices are drawn is not stated.
pub fn generate_api_secret() -> (r: String)
    ensures
        is_api_secret(r@),
        exists|indices: Seq<usize>|
            indices.len() == API_SECRET_LENGTH && charset_indices(indices) && r@
                == spec_secret_from_indices(indices),
{
    let mut indices: Vec<usize> = Vec::new();
    let mut k: usize = 0;
    while k < API_SECRET_LENGTH
        invariant
            k <= API_SECRET_LENGTH,
            indices@.len() == k,
            charset_indices(indices@),
        decreases API_SECRET_LENGTH - k,
    {
        let idx = random_index(62);
        indices.push(idx);
        k = k + 1;
    }
    let r = secret_from_indices(&indices);
    proof {
        lemma_secret_from_indices(indices@);
    }
    r
}

/// The credentials of a new API key: a random UUID as key id and a random
/// secret. The client presents them as `key_id:key_secret`.
pub fn create_api_key() -> (r: (String, String))
    ensures
        is_api_key_id(r.0@),
        is_api_secret(r.1@),
{
    let key_id = new_uuid_text();
    let key_secret = generate_api_secret();
    (key_id, key_secret)
}

/// A key with an expiry instant has expired once the present instant is
/// past it; a key without one never expires. The expiry is held in
/// microseconds since the Unix epoch, the present instant as whole seconds
/// and the nanoseconds after them: the present is past the expiry when its
/// second is later, or when it is the same second and more nanoseconds have
/// passed in it.
pub open spec fn spec_key_expired(expires_at: Option<i64>, now_secs: i64, now_nanos: u32) -> bool {
    match expires_at {
        Some(e) => now_secs > e / 1_000_000 || (now_secs == e / 1_000_000 && now_nanos > (e
            % 1_000_000) * 1000),
        None => false,
    }
}

proof fn lemma_expiry_by_nanoseconds(e: int, s: int, n: int, clamped: int)
    requires
        0 <= n,
        clamped == if n < 1_000_000_000 {
            n
        } else {
            999_999_999
        },
    ensures
        (s * 1_000_000_000 + clamped > e * 1000) == (s > e / 1_000_000 || (s == e / 1_000_000 && n
            > (e % 1_000_000) * 1000)),
{
    let q = e / 1_000_000;
    let r = e % 1_000_000;
    assert(e == q * 1_000_000 + r && 0 <= r < 1_000_000);
    assert(e * 1000 == q * 1_000_000_000 + r * 1000) by (nonlinear_arith)
        requires
            e == q * 1_000_000 + r,
    ;
    if s > q {
        assert(s * 1_000_000_000 >= q * 1_000_000_000 + 1_000_000_000) by (nonlinear_arith)
            requires
                s > q,
        ;
    } else if s < q {
        assert(s * 1_000_000_000 + 1_000_000_000 <= q * 1_000_000_000) by (nonlinear_arith)
            requires
                s < q,
        ;
    }
}

/// What validating a looked-up key gives at the present instant
/// `(now_secs, now_nanos)`: no key stays no key; a key is kept unless it has
/// expired.
pub open spec fn spec_validated(found: Option<ConsoleApiKeyDto>, now_secs: i64, now_nanos: u32) -> Option<
    ConsoleApiKeyDto,
> {
    match found {
        Some(k) => if spec_key_expired(k.expires_at, now_secs, now_nanos) {
            None
        } else {
            Some(k)
        },
        None => None,
    }
}

/// What validating an API key gives, once the key has been looked up by id
/// and secret among the active, not deleted keys: the key, unless it has
/// expired at the present instant, given as whole seconds since the Unix
/// epoch and the nanoseconds after them (more than 999,999,999 during a leap
/// second).
pub fn validate_api_key(found: Option<ConsoleApiKeyDto>, now_secs: i64, now_nanos: u32) -> (r:
    Option<ConsoleApiKeyDto>)
    requires
        now_nanos < 2_000_000_000,
    ensures
        match found {
            Some(k) => if spec_key_expired(k.expires_at, now_secs, now_nanos) {
                r is None
            } else {
                r == Some(k)
            },
            None => r is None,
        },
        r == spec_validated(found, now_secs, now_nanos),
{
    match found {
        Some(k) => {
            let expired = match k.expires_at {
                Some(e) => {
                    let clamped: u32 = if now_nanos < 1_000_000_000 {
                        now_nanos
                    } else {
                        999_999_999
                    };
                    let now_total: i128 = now_secs as i128 * 1_000_000_000 + clamped as i128;
                    let expiry_total: i128 = e as i128 * 1000;
                    proof {
                        lemma_expiry_by_nanoseconds(
                            e as int,
                            now_secs as int,
                            now_nanos as int,
                            clamped as int,
                        );
                    }
                    now_total > expiry_total
                },
                None => false,
            };
            if expired {
                None
            } else {
                Some(k)
            }
        },
        None => None,
    }
}

/// Validating a looked-up key against the clock: the answer is that of
/// validating it at an instant the clock can give (whole seconds since the
/// Unix epoch below 9,000,000,000,000 and the nanoseconds after them), the
/// one it gave. So no key stays no key, a key without expiry is kept, and a
/// key kept has not expired at that instant.
pub fn validate_api_key_now(found: Option<ConsoleApiKeyDto>) -> (r: Option<ConsoleApiKeyDto>)
    ensures
        found is None ==> r is None,
        (found matches Some(k) && k.expires_at is None) ==> r == found,
        r is Some ==> r == found,
        exists|secs: i64, nanos: u32|
            0 <= secs < 9_000_000_000_000 && nanos < 2_000_000_000 && r == #[trigger] spec_validated(
                found,
                secs,
                nanos,
            ),
{
    let (secs, nanos) = now_timestamp();
    validate_api_key(found, secs, nanos)
}

/// Outside a leap second, a key is kept exactly when it has no expiry or
/// its expiry (in microseconds) is not before the present instant counted
/// in nanoseconds; a key is refused exactly when the present is past its
/// expiry.
pub proof fn lemma_validation_by_expiry(k: ConsoleApiKeyDto, now_secs: i64, now_nanos: u32)
    requires
        now_nanos < 1_000_000_000,
    ensures
        spec_validated(Some(k), now_secs, now_nanos) == Some(k) <==> match k.expires_at {
            Some(e) => now_secs * 1_000_000_000 + now_nanos <= e * 1000,
            None => true,
        },
        spec_validated(Some(k), now_secs, now_nanos) is None <==> match k.expires_at {
            Some(e) => now_secs * 1_000_000_000 + now_nanos > e * 1000,
            None => false,
        },
        spec_validated(None, now_secs, now_nanos) is None,
{
    match k.expires_at {
        Some(e) => {
            lemma_expiry_by_nanoseconds(e as int, now_secs as int, now_nanos as int, now_nanos as int);
        },
        None => {},
    }
}

} // verus!
