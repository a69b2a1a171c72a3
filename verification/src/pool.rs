//! Sizing of the database connection pool: grow by a step when it is busy,
//! shrink by a step (never below its minimum) when it is idle.

use vstd::prelude::*;

verus! {

/// How busy the pool is against its resize thresholds: at or above the
/// high one, else at or below the low one, else in between.
#[derive(Debug, Clone, Copy, PartialEq, Eq, Structural)]
pub enum PoolLoad {
    AtOrAboveHigh,
    AtOrBelowLow,
    Between,
}

/// The size recommended for a pool of `current_max` connections: unchanged
/// for an empty pool; one step more (saturating) when busy; one step less,
/// but not below `min_pool_size`, when idle and above the minimum.
pub open spec fn recommended_size(current_max: usize, min_pool_size: usize, resize_step: usize, load: PoolLoad) -> usize {
    if current_max == 0 {
        current_max
    } else {
        match load {
            PoolLoad::AtOrAboveHigh => if current_max + resize_step > usize::MAX {
                usize::MAX
            } else {
                (current_max + resize_step) as usize
            },
            PoolLoad::AtOrBelowLow => if current_max > min_pool_size {
                if current_max - resize_step > min_pool_size {
                    (current_max - resize_step) as usize
                } else {
                    min_pool_size
                }
            } else {
                current_max
            },
            PoolLoad::Between => current_max,
        }
    }
}

/// The pool size to recommend under `load`; the pool itself is not touched.
pub fn resize_pool(current_max: usize, min_pool_size: usize, resize_step: usize, load: PoolLoad) -> (r: usize)
    ensures
        r == recommended_size(current_max, min_pool_size, resize_step, load),
        load == PoolLoad::AtOrBelowLow && current_max > min_pool_size ==> min_pool_size <= r <= current_max,
        load == PoolLoad::AtOrAboveHigh ==> r >= current_max,
{
    if current_max == 0 {
        return current_max;
    }
    match load {
        PoolLoad::AtOrAboveHigh => current_max.saturating_add(resize_step),
        PoolLoad::AtOrBelowLow => {
            if current_max > min_pool_size {
                let shrunk = current_max.saturating_sub(resize_step);
                if shrunk > min_pool_size {
                    shrunk
                } else {
                    min_pool_size
                }
            } else {
                current_max
            }
        },
        PoolLoad::Between => current_max,
    }
}

} // verus!
