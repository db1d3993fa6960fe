//! The versions of a gray release: where new ones go in its order, and the
//! largest place taken.
use vstd::prelude::*;

use crate::entitys::gray_resources::BatchCreateGrayResourceRequest;

verus! {

/// The place a version takes when none is given: the first.
pub fn create_gray_resource_sort_order(sort_order: Option<i32>) -> (r: i32)
    ensures
        r == match sort_order {
            Some(s) => s,
            None => 0,
        },
{
    match sort_order {
        Some(s) => s,
        None => 0,
    }
}

/// The largest sort order among the versions of a release, given what the
/// query found: that value, or 0 when it found none.
pub fn max_sort_order(found: Option<i32>) -> (r: i32)
    ensures
        r == match found {
            Some(m) => m,
            None => 0,
        },
{
    match found {
        Some(m) => m,
        None => 0,
    }
}

/// The rows a batch adds, as `(gray_release_id, version_id, sort_order)`:
/// one per version, in request order, each placed at its index in the
/// request (as a 32-bit integer).
pub fn batch_create_gray_resources(request: &BatchCreateGrayResourceRequest) -> (r: Vec<
    (i32, i32, i32),
>)
    ensures
        r@.len() == request.version_ids@.len(),
        forall|i: int|
            0 <= i < r@.len() ==> #[trigger] r@[i] == (
                request.gray_release_id,
                request.version_ids@[i],
                i as i32,
            ),
{
    let mut rows: Vec<(i32, i32, i32)> = Vec::new();
    let n = request.version_ids.len();
    let mut i: usize = 0;
    while i < n
        invariant
            n == request.version_ids@.len(),
            i <= n,
            rows@.len() == i,
            forall|j: int|
                0 <= j < i ==> #[trigger] rows@[j] == (
                    request.gray_release_id,
                    request.version_ids@[j],
                    j as i32,
                ),
        decreases n - i,
    {
        #[verifier::truncate]
        let index = i as i32;
        rows.push((request.gray_release_id, request.version_ids[i], index));
        i = i + 1;
    }
    rows
}

} // verus!
