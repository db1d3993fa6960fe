//! The versions of a gray release.
use vstd::prelude::*;

verus! {

/// One version offered by a gray release, at a place in its order.
#[derive(Debug, Clone, Copy, PartialEq, Eq)]
pub struct GrayResource {
    pub id: i32,
    pub gray_release_id: i32,
    pub version_id: i32,
    pub sort_order: i32,
}

} // verus!
