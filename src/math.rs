use vstd::prelude::*;

verus! {

/// The affine map from `from_range` onto `to_range`, truncating toward zero.
pub open spec fn map_range_spec(s: int, from_range: (int, int), to_range: (int, int)) -> int {
    to_range.0 + (s - from_range.0) * (to_range.1 - to_range.0) / (from_range.1 - from_range.0)
}

/// Maps `s` affinely from `from_range` onto `to_range`, both increasing, for every
/// `s` from the start of `from_range` on whose arithmetic fits in `u32`.
pub fn map_range(s: u32, from_range: (u32, u32), to_range: (u32, u32)) -> (r: u32)
    requires
        from_range.0 <= s,
        from_range.0 < from_range.1,
        to_range.0 <= to_range.1,
        (s - from_range.0) * (to_range.1 - to_range.0) <= u32::MAX,
        map_range_spec(s as int, (from_range.0 as int, from_range.1 as int), (to_range.0 as int, to_range.1 as int)) <= u32::MAX,
    ensures
        r == map_range_spec(s as int, (from_range.0 as int, from_range.1 as int), (to_range.0 as int, to_range.1 as int)),
        s <= from_range.1 ==> to_range.0 <= r <= to_range.1,
{
    let d: u32 = from_range.1 - from_range.0;
    let w: u32 = to_range.1 - to_range.0;
    let k: u32 = s - from_range.0;
    let q: u32 = k * w / d;
    assert(s <= from_range.1 ==> (k * w) as int / (d as int) <= w as int) by (nonlinear_arith)
        requires k as int * w as int == (k * w) as int, d > 0, w >= 0, s <= from_range.1 ==> k <= d;
    to_range.0 + q
}

/// Mapping never decreases as `s` grows.
pub proof fn lemma_map_range_monotonic(s1: int, s2: int, from_range: (int, int), to_range: (int, int))
    requires
        from_range.0 <= s1 <= s2,
        from_range.0 < from_range.1,
        to_range.0 <= to_range.1,
    ensures
        map_range_spec(s1, from_range, to_range) <= map_range_spec(s2, from_range, to_range),
{
    let d = from_range.1 - from_range.0;
    let w = to_range.1 - to_range.0;
    assert((s1 - from_range.0) * w / d <= (s2 - from_range.0) * w / d) by (nonlinear_arith)
        requires 0 <= s1 - from_range.0 <= s2 - from_range.0, w >= 0, d > 0;
}

/// Mapping a range onto itself leaves every value unchanged.
pub proof fn lemma_map_range_identity(s: int, range: (int, int))
    requires
        range.0 <= s,
        range.0 < range.1,
    ensures
        map_range_spec(s, range, range) == s,
{
    let d = range.1 - range.0;
    assert((s - range.0) * d / d == s - range.0) by (nonlinear_arith)
        requires d > 0;
}

} // verus!
