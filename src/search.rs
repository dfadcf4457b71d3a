use vstd::prelude::*;

verus! {

/// Lower end of the default search range, in milliseconds.
pub const SEARCH_LOW: i64 = -1000000000000000000;

/// Upper end of the default search range, in milliseconds.
pub const SEARCH_HIGH: i64 = 1000000000000000000;

/// `x` is where `above` turns false within `[lo, hi]`: the oracle answered
/// `true` just below `x` (unless `x == lo`) and `false` at `x` (unless
/// `x == hi`, where it need not have been asked).
pub open spec fn is_boundary<F: Fn(i64) -> bool>(above: F, lo: int, hi: int, x: int) -> bool {
    &&& lo <= x <= hi
    &&& x > lo ==> above.ensures(((x - 1) as i64,), true)
    &&& x < hi ==> above.ensures((x as i64,), false)
}

/// `p` holds on an initial part of `[lo, hi]` and fails on the rest.
pub open spec fn monotone_on(p: spec_fn(int) -> bool, lo: int, hi: int) -> bool {
    forall|a: int, b: int| lo <= a <= b <= hi && #[trigger] p(b) ==> #[trigger] p(a)
}

/// Bisection for the first point of `[lo, hi]` at which `above` answers
/// `false`; `hi` if it answers `true` everywhere below `hi`.
///
/// With `above(x)` meaning "the tail probability at `x` ms is still above the
/// target", this turns a target probability into a deadline. Each round
/// shrinks the range, so the search always ends.
pub fn first_not_above<F: Fn(i64) -> bool>(lo: i64, hi: i64, above: F) -> (r: i64)
    requires
        lo <= hi,
        forall|x: i64| lo <= x < hi ==> above.requires((x,)),
    ensures
        is_boundary(above, lo as int, hi as int, r as int),
{
    let mut a: i64 = lo;
    let mut b: i64 = hi;
    while a < b
        invariant
            lo <= a <= b <= hi,
            forall|x: i64| lo <= x < hi ==> above.requires((x,)),
            a > lo ==> above.ensures(((a - 1) as i64,), true),
            b < hi ==> above.ensures((b,), false),
        decreases b - a,
    {
        let mid: i64 = (a as i128 + (b as i128 - a as i128) / 2) as i64;
        if above(mid) {
            a = mid + 1;
        } else {
            b = mid;
        }
    }
    a
}

/// The search over the default range `[SEARCH_LOW, SEARCH_HIGH]`.
pub fn inverse_search<F: Fn(i64) -> bool>(above: F) -> (r: i64)
    requires
        forall|x: i64| SEARCH_LOW <= x < SEARCH_HIGH ==> above.requires((x,)),
    ensures
        is_boundary(above, SEARCH_LOW as int, SEARCH_HIGH as int, r as int),
{
    first_not_above(SEARCH_LOW, SEARCH_HIGH, above)
}

/// A deadline in whole milliseconds: a boundary below zero means no wait.
pub fn deadline_ms(x: i64) -> (r: u64)
    ensures
        r == if x < 0 { 0 } else { x as int },
{
    if x < 0 {
        0
    } else {
        x as u64
    }
}

/// Where the oracle answers by a predicate that holds on an initial part of
/// the range, the search lands on the one point where it turns false: every
/// point below the result satisfies it and no point from the result on does.
pub proof fn lemma_boundary_is_threshold<F: Fn(i64) -> bool>(
    above: F,
    p: spec_fn(int) -> bool,
    lo: int,
    hi: int,
    x: int,
)
    requires
        i64::MIN <= lo <= hi <= i64::MAX,
        monotone_on(p, lo, hi),
        forall|y: i64, b: bool| #[trigger] above.ensures((y,), b) ==> b == p(y as int),
        is_boundary(above, lo, hi, x),
    ensures
        forall|y: int| lo <= y < x ==> #[trigger] p(y),
        forall|y: int| x <= y < hi ==> !#[trigger] p(y),
{
    assert forall|y: int| lo <= y < x implies #[trigger] p(y) by {
        assert(above.ensures(((x - 1) as i64,), true));
        assert(p(x - 1));
        assert(p(y) || !p(x - 1));
    }
    assert forall|y: int| x <= y < hi implies !#[trigger] p(y) by {
        assert(above.ensures((x as i64,), false));
        assert(!p(x));
        if p(y) {
            assert(p(x));
        }
    }
}

} // verus!
