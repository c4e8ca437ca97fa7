use vstd::prelude::*;

verus! {

/// `rank` clamped to the last position of a sorted sample of `len` values.
pub open spec fn spec_clamp_rank(rank: int, len: int) -> int {
    if rank <= len - 1 {
        rank
    } else {
        len - 1
    }
}

/// The two positions of a sorted sample of `len` values (`len > 0`) that a
/// percentile interpolates between, from the rounded-down and rounded-up
/// fractional rank: each is clamped to the last position.
pub fn interpolation_ranks(floor_rank: usize, ceil_rank: usize, len: usize) -> (r: (
    usize,
    usize,
))
    requires
        len > 0,
    ensures
        r.0 == spec_clamp_rank(floor_rank as int, len as int),
        r.1 == spec_clamp_rank(ceil_rank as int, len as int),
{
    let last: usize = len - 1;
    let lower: usize = if floor_rank < last {
        floor_rank
    } else {
        last
    };
    let upper: usize = if ceil_rank < last {
        ceil_rank
    } else {
        last
    };
    (lower, upper)
}

/// The interpolation ranks always fall inside the sample, keep their order,
/// and leave ranks that already fall inside unchanged.
pub proof fn lemma_interpolation_ranks_in_bounds(floor_rank: nat, ceil_rank: nat, len: nat)
    requires
        len > 0,
    ensures
        0 <= spec_clamp_rank(floor_rank as int, len as int) < len,
        0 <= spec_clamp_rank(ceil_rank as int, len as int) < len,
        floor_rank <= ceil_rank ==> spec_clamp_rank(floor_rank as int, len as int)
            <= spec_clamp_rank(ceil_rank as int, len as int),
        floor_rank < len ==> spec_clamp_rank(floor_rank as int, len as int) == floor_rank,
        ceil_rank < len ==> spec_clamp_rank(ceil_rank as int, len as int) == ceil_rank,
{
}

} // verus!
