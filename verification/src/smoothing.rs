use vstd::prelude::*;

verus! {

/// The stretch of data that one point of a moving average covers: the
/// positions `start..=end`, both included.
#[derive(Clone, Copy, Debug, PartialEq, Eq, Structural)]
pub struct Window {
    pub start: usize,
    pub end: usize,
}

/// First position of the window that ends at `index` when at most `window`
/// points are averaged: `index - (window - 1)`, or 0 where that would be
/// negative.
pub open spec fn spec_window_start(index: int, window: int) -> int {
    if index + 1 >= window {
        index + 1 - window
    } else {
        0
    }
}

/// The windows of a moving average of width `window` over `len` points.
///
/// With a width of zero, or with no data, the moving average hands its data
/// back unchanged and there are no windows to average (`None`). Otherwise
/// point `i` averages the positions from `i - (window - 1)` (or 0) up to `i`.
pub fn moving_average_windows(len: usize, window: usize) -> (r: Option<Vec<Window>>)
    ensures
        r is None <==> (window == 0 || len == 0),
        r matches Some(ws) ==> {
            &&& ws@.len() == len
            &&& forall|i: int|
                0 <= i < len ==> (#[trigger] ws@[i]).start == spec_window_start(i, window as int)
                    && ws@[i].end == i
        },
{
    if window == 0 || len == 0 {
        return None;
    }
    let mut windows: Vec<Window> = Vec::with_capacity(len);
    let mut i: usize = 0;
    while i < len
        invariant
            window > 0,
            i <= len,
            windows@.len() == i,
            forall|k: int|
                0 <= k < i ==> (#[trigger] windows@[k]).start == spec_window_start(
                    k,
                    window as int,
                ) && windows@[k].end == k,
        decreases len - i,
    {
        let start: usize = i.saturating_sub(window - 1);
        windows.push(Window { start, end: i });
        i = i + 1;
    }
    Some(windows)
}

/// Every window ends at its own point, starts no later than it, and covers
/// `min(index + 1, window)` points: the whole prefix while the data is
/// shorter than the width, exactly `window` points afterwards.
pub proof fn lemma_window_shape(index: nat, window: nat)
    requires
        window > 0,
    ensures
        0 <= spec_window_start(index as int, window as int) <= index,
        index - spec_window_start(index as int, window as int) + 1 == if index + 1 <= window {
            index + 1int
        } else {
            window as int
        },
{
}

/// A window of width one covers its own point alone, so a moving average of
/// width one averages each point by itself.
pub proof fn lemma_unit_window_is_single_point(index: nat)
    ensures
        spec_window_start(index as int, 1) == index,
{
}

/// Windows slide forward: the window of a later point never starts before
/// the window of an earlier one, and each step moves the start by at most
/// one position.
pub proof fn lemma_windows_slide_forward(earlier: nat, later: nat, window: nat)
    requires
        earlier <= later,
        window > 0,
    ensures
        spec_window_start(earlier as int, window as int) <= spec_window_start(
            later as int,
            window as int,
        ),
        later == earlier + 1 ==> spec_window_start(later as int, window as int)
            <= spec_window_start(earlier as int, window as int) + 1,
{
}

} // verus!
