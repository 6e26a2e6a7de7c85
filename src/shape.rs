use vstd::prelude::*;

verus! {

/// The whole square root of `n`.
pub open spec fn is_isqrt(k: int, n: int) -> bool {
    k >= 0 && k * k <= n < (k + 1) * (k + 1)
}

/// How many vertices approximate a circle whose radius has the whole part
/// `whole_radius`: four, and four more for each unit of the square root of the
/// radius, so that small circles stay cheap. The count is always a multiple of
/// four, which puts a vertex on each end of both axes.
pub fn circle_vertex_count(whole_radius: u32) -> (n: u64)
    ensures
        n >= 4,
        n % 4 == 0,
        is_isqrt((n - 4) / 4, whole_radius as int),
{
    let r = whole_radius as u64;
    let mut k: u64 = 0;
    loop
        invariant
            k * k <= r,
            r <= u32::MAX,
            k <= 65536,
        ensures
            k * k <= r < (k + 1) * (k + 1),
            k <= 65536,
        decreases r - k * k,
    {
        let next = k + 1;
        assert(next * next <= 65537 * 65537) by (nonlinear_arith)
            requires
                next <= 65537,
        ;
        if next * next > r {
            break;
        }
        assert(next <= 65536) by (nonlinear_arith)
            requires
                next * next <= r,
                r <= u32::MAX,
        ;
        assert(next * next > k * k) by (nonlinear_arith)
            requires
                next == k + 1,
        ;
        k = next;
    }
    4 + 4 * k
}

} // verus!
