//! Random identifiers: UUIDs and random indices.
use vstd::prelude::*;

verus! {

/// What `uuid::Uuid::parse_str` gives for a text, as the UUID's 128-bit
/// number, or `None` when the text is no UUID in any of the accepted forms.
pub uninterp spec fn uuid_parse(text: Seq<char>) -> Option<u128>;

/// Whether a character may appear in the hyphenated lower-case form of a
/// UUID.
pub open spec fn is_uuid_text_char(c: char) -> bool {
    ('0' <= c && c <= '9') || ('a' <= c && c <= 'f') || c == '-'
}

/// `uuid::Uuid::parse_str(text)` (what `Uuid::from_str` calls), as the
/// UUID's 128-bit number. The contract only names the result: it is the
/// same for the same text.
#[verifier::external_body]
pub(crate) fn parse_uuid(text: &str) -> (r: Option<u128>)
    ensures
        r == uuid_parse(text@),
{
    match uuid::Uuid::parse_str(text) {
        Ok(u) => Some(u.as_u128()),
        Err(_) => None,
    }
}

/// `uuid::Uuid::new_v4().to_string()`: a random UUID in hyphenated
/// lower-case form. The contract states the form (36 characters, hex digits
/// and hyphens), not which UUID comes out. It fails (rather than return)
/// only when the operating system's random source fails, which no input
/// causes.
#[verifier::external_body]
pub(crate) fn new_uuid_text() -> (r: String)
    ensures
        r@.len() == 36,
        forall|i: int| 0 <= i < r@.len() ==> is_uuid_text_char(#[trigger] r@[i]),
{
    uuid::Uuid::new_v4().to_string()
}

/// `rand::rng().random_range(0..bound)`: a random index below `bound`
/// (which must not be 0, else `random_range` panics). Which index comes out
/// is not stated. Apart from an empty range, it fails (rather than return)
/// only when the operating system's random source fails while the thread's
/// generator is seeded, which no input causes.
#[verifier::external_body]
pub(crate) fn random_index(bound: usize) -> (r: usize)
    requires
        bound > 0,
    ensures
        r < bound,
{
    rand::Rng::random_range(&mut rand::rng(), 0..bound)
}

} // verus!
