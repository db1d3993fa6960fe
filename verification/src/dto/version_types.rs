//! Types of published resources.
use vstd::prelude::*;

verus! {

/// A type of published resource. `display_name` is the column `type_name`.
#[derive(Debug, Clone)]
pub struct VersionType {
    pub id: i32,
    pub type_code: String,
    pub display_name: String,
    pub description: Option<String>,
    pub sort_order: Option<i32>,
    pub is_active: bool,
}

} // verus!
