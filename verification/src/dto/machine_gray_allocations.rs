//! Machines allocated to gray releases.
use vstd::prelude::*;

verus! {

/// A machine allocated to a gray release.
#[derive(Debug, Clone)]
pub struct MachineGrayAllocation {
    pub id: i32,
    pub machine_code: String,
    pub gray_release_id: i32,
    pub allocated_at: i64,
    pub effective_time: Option<i64>,
    pub status: String,
    pub notes: Option<String>,
    pub created_at: i64,
}

} // verus!
