//! Integer bookkeeping of the beat tracker: history length, how often the
//! tempo is re-estimated, and which lags the autocorrelation examines.
use vstd::prelude::*;

verus! {

/// Analysis frames of energy kept for the tempo estimate (about four seconds).
pub const HISTORY_SIZE: usize = 256;

/// The tempo is re-estimated on every this many analysis frames.
pub const AUTOCORRELATION_EVERY: u32 = 8;

/// The longest lag examined: half the history.
pub const MAX_LAG: usize = 128;

/// The lags that the autocorrelation compares, given the shortest lag (the
/// fastest tempo) and the longest lag (the slowest tempo) wanted: the longest
/// is capped at half the history, and no estimate is made when the range is
/// then empty.
pub open spec fn spec_lag_window(min_lag: usize, max_lag: usize) -> Option<(usize, usize)> {
    let capped: usize = if max_lag < MAX_LAG { max_lag } else { MAX_LAG };
    if min_lag >= capped {
        None
    } else {
        Some((min_lag, capped))
    }
}

/// See `spec_lag_window`.
pub fn lag_window(min_lag: usize, max_lag: usize) -> (r: Option<(usize, usize)>)
    ensures
        r == spec_lag_window(min_lag, max_lag),
{
    let capped = if max_lag < MAX_LAG {
        max_lag
    } else {
        MAX_LAG
    };
    if min_lag >= capped {
        None
    } else {
        Some((min_lag, capped))
    }
}

/// Every lag in a window leaves at least half the history to compare, so
/// the products of the autocorrelation at lag `l` pair positions `i` and
/// `i + l` of the history for every `i` below `HISTORY_SIZE - l`, and no
/// position falls outside the history.
pub proof fn law_lag_window_fits_history(min_lag: usize, max_lag: usize, lag: int, i: int)
    requires
        spec_lag_window(min_lag, max_lag) is Some,
        0 <= lag <= spec_lag_window(min_lag, max_lag).unwrap().1,
        0 <= i < HISTORY_SIZE - lag,
    ensures
        spec_lag_window(min_lag, max_lag).unwrap().0 < spec_lag_window(min_lag, max_lag).unwrap().1 <= MAX_LAG,
        HISTORY_SIZE - lag >= MAX_LAG,
        i + lag < HISTORY_SIZE,
{
}


/// The window keeps the requested lags when they fit in half the history,
/// cuts the longest lag down to `MAX_LAG` otherwise, and is empty exactly
/// when no lag is left between the shortest and the (capped) longest.
pub proof fn law_lag_window_keeps_request(min_lag: usize, max_lag: usize)
    ensures
        min_lag < max_lag <= MAX_LAG ==> spec_lag_window(min_lag, max_lag) == Some((min_lag, max_lag)),
        min_lag < MAX_LAG <= max_lag ==> spec_lag_window(min_lag, max_lag) == Some((min_lag, MAX_LAG)),
        spec_lag_window(min_lag, max_lag) is None <==> (min_lag >= max_lag || min_lag >= MAX_LAG),
{
}

} // verus!
