//! How many records one page asks for.
use vstd::prelude::*;

verus! {

/// Page size used when neither the caller nor the query names one.
pub const DEFAULT_BATCH_SIZE: u64 = 1000;

/// The share of a record limit that falls to one slice, never below one.
pub open spec fn slice_share(limit: u64, slices: u64) -> u64
    recommends
        slices >= 1,
{
    if limit / slices >= 1 {
        (limit / slices) as u64
    } else {
        1
    }
}

/// The page size of a run: the requested size, else the size the query
/// declares, else the default; under a limit, at most one slice's share of it.
pub open spec fn effective_batch(
    requested: Option<u64>,
    declared: Option<u64>,
    limit: Option<u64>,
    slices: u64,
) -> u64
    recommends
        slices >= 1,
{
    let wanted = match requested {
        Some(b) => b,
        None => match declared {
            Some(d) => d,
            None => DEFAULT_BATCH_SIZE,
        },
    };
    match limit {
        Some(l) => if wanted <= slice_share(l, slices) {
            wanted
        } else {
            slice_share(l, slices)
        },
        None => wanted,
    }
}

/// Computes the page size of a run from the requested size, the size the
/// query declares, the record limit and the number of slices.
pub fn effective_batch_size(
    requested: Option<u64>,
    declared: Option<u64>,
    limit: Option<u64>,
    slices: u64,
) -> (r: u64)
    requires
        slices >= 1,
    ensures
        r == effective_batch(requested, declared, limit, slices),
{
    let wanted: u64 = match requested {
        Some(b) => b,
        None => match declared {
            Some(d) => d,
            None => DEFAULT_BATCH_SIZE,
        },
    };
    match limit {
        Some(l) => {
            let share: u64 = l / slices;
            let cap: u64 = if share >= 1 { share } else { 1 };
            if wanted <= cap { wanted } else { cap }
        },
        None => wanted,
    }
}

/// Under a limit no page asks for more than one slice's share of it. Where
/// the limit gives every slice at least one record, the first pages of all
/// slices together stay within the limit.
pub proof fn lemma_batch_within_limit(
    requested: Option<u64>,
    declared: Option<u64>,
    limit: u64,
    slices: u64,
)
    requires
        slices >= 1,
    ensures
        1 <= slice_share(limit, slices),
        effective_batch(requested, declared, Some(limit), slices) <= slice_share(limit, slices),
        limit >= 1 ==> effective_batch(requested, declared, Some(limit), slices) <= limit,
        limit >= slices ==> slices * effective_batch(requested, declared, Some(limit), slices)
            <= limit,
{
    let share = slice_share(limit, slices);
    let size = effective_batch(requested, declared, Some(limit), slices);
    assert(limit / slices <= limit) by (nonlinear_arith)
        requires
            slices >= 1,
    ;
    assert(slices * (limit / slices) <= limit) by (nonlinear_arith)
        requires
            slices >= 1,
    ;
    if limit >= slices {
        assert(limit / slices >= 1) by (nonlinear_arith)
            requires
                limit >= slices,
                slices >= 1,
        ;
        assert(slices * size <= slices * share) by (nonlinear_arith)
            requires
                size <= share,
                slices >= 1,
        ;
    }
}

} // verus!
