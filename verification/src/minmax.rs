//! Extremes of a list of values, in the first-occurrence style the
//! scanner uses: a later equal value never displaces an earlier one.
use vstd::prelude::*;

verus! {

/// The running extreme of the first n values, starting from zero on an
/// empty list: a candidate replaces the best seen so far only when
/// strictly beyond it.
pub open spec fn spec_maxmin_upto(nums: Seq<i64>, min_mode: bool, n: nat) -> int
    decreases n,
{
    if n == 0 {
        0
    } else if n == 1 {
        nums[0] as int
    } else {
        let b = spec_maxmin_upto(nums, min_mode, (n - 1) as nat);
        if (min_mode && nums[n - 1] < b) || (!min_mode && nums[n - 1] > b) {
            nums[n - 1] as int
        } else {
            b
        }
    }
}

/// The fold behind max_value and min_value.
fn maxmin_value(nums: &Vec<i64>, min_mode: bool) -> (r: i64)
    ensures
        r == spec_maxmin_upto(nums@, min_mode, nums@.len()),
        nums@.len() == 0 ==> r == 0,
        forall|k: int|
            0 <= k < nums@.len() ==> if min_mode {
                r <= #[trigger] nums@[k]
            } else {
                r >= #[trigger] nums@[k]
            },
{
    let n = nums.len();
    if n == 0 {
        return 0;
    }
    let mut best = nums[0];
    let mut i: usize = 1;
    while i < n
        invariant
            1 <= i <= n,
            n == nums@.len(),
            best == spec_maxmin_upto(nums@, min_mode, i as nat),
            forall|k: int|
                0 <= k < i ==> if min_mode {
                    best <= #[trigger] nums@[k]
                } else {
                    best >= #[trigger] nums@[k]
                },
        decreases n - i,
    {
        let v = nums[i];
        if (min_mode && v < best) || (!min_mode && v > best) {
            best = v;
        }
        i = i + 1;
    }
    best
}

/// The greatest value of the list, or zero when it is empty.
pub fn max_value(nums: &Vec<i64>) -> (r: i64)
    ensures
        r == spec_maxmin_upto(nums@, false, nums@.len()),
        forall|k: int| 0 <= k < nums@.len() ==> r >= #[trigger] nums@[k],
{
    maxmin_value(nums, false)
}

/// The least value of the list, or zero when it is empty.
pub fn min_value(nums: &Vec<i64>) -> (r: i64)
    ensures
        r == spec_maxmin_upto(nums@, true, nums@.len()),
        forall|k: int| 0 <= k < nums@.len() ==> r <= #[trigger] nums@[k],
{
    maxmin_value(nums, true)
}

} // verus!
