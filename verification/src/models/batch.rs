//! Counting the statements of a batch that changed a row.
use vstd::prelude::*;

verus! {

/// The count of a batch after one more statement, which changed
/// `rows_affected` rows: a statement that `ON CONFLICT DO NOTHING` stopped
/// changes none and is not counted.
pub fn count_changed(count: u64, rows_affected: u64) -> (r: u64)
    requires
        count < u64::MAX,
    ensures
        r == if rows_affected > 0 {
            count + 1
        } else {
            count as int
        },
{
    if rows_affected > 0 {
        count + 1
    } else {
        count
    }
}

} // verus!
