//! The coordinate mapper: axis extrema and the value-to-cell transform.

use crate::region::Region;
use crate::scalar::Scalar;
use vstd::prelude::*;

verus! {

/// A plotted point: one (domain, value) pair of a series.
#[derive(Clone, Copy, Debug, PartialEq, Eq, Structural)]
pub struct Point {
    pub x: Scalar,
    pub y: Scalar,
}

/// The axis bounds of the current series. For an empty series every bound
/// defaults to zero instead of failing.
#[derive(Clone, Copy, Debug, PartialEq, Eq, Structural)]
pub struct Extrema {
    pub min_x: Scalar,
    pub max_x: Scalar,
    pub min_y: Scalar,
    pub max_y: Scalar,
}

/// The least element of `s` from index `i` on.
pub open spec fn min_from(s: Seq<int>, i: int) -> int
    decreases s.len() - i,
{
    if i + 1 >= s.len() {
        s[i]
    } else {
        vstd::math::min(s[i], min_from(s, i + 1))
    }
}

/// The greatest element of `s` from index `i` on.
pub open spec fn max_from(s: Seq<int>, i: int) -> int
    decreases s.len() - i,
{
    if i + 1 >= s.len() {
        s[i]
    } else {
        vstd::math::max(s[i], max_from(s, i + 1))
    }
}

/// The least element of `s`, or zero when `s` is empty.
pub open spec fn seq_min(s: Seq<int>) -> int {
    if s.len() == 0 {
        0
    } else {
        min_from(s, 0)
    }
}

/// The greatest element of `s`, or zero when `s` is empty.
pub open spec fn seq_max(s: Seq<int>) -> int {
    if s.len() == 0 {
        0
    } else {
        max_from(s, 0)
    }
}

/// The domain values of a series.
pub open spec fn xs_of(series: Seq<Point>) -> Seq<int> {
    series.map_values(|p: Point| p.x@)
}

/// The values of a series.
pub open spec fn ys_of(series: Seq<Point>) -> Seq<int> {
    series.map_values(|p: Point| p.y@)
}

/// The extrema a series determines: least and greatest along both axes,
/// all zero for an empty series.
pub open spec fn extrema_spec(series: Seq<Point>) -> Extrema {
    Extrema {
        min_x: Scalar { units: seq_min(xs_of(series)) as i64 },
        max_x: Scalar { units: seq_max(xs_of(series)) as i64 },
        min_y: Scalar { units: seq_min(ys_of(series)) as i64 },
        max_y: Scalar { units: seq_max(ys_of(series)) as i64 },
    }
}

/// The least element of a nonempty suffix is a lower bound of it, and the
/// greatest an upper bound.
pub proof fn lemma_from_bounds(s: Seq<int>, i: int, j: int)
    requires
        0 <= i <= j < s.len(),
    ensures
        min_from(s, i) <= s[j] <= max_from(s, i),
        min_from(s, i) <= max_from(s, i),
    decreases j - i,
{
    if i < j {
        lemma_from_bounds(s, i + 1, j);
    }
}

/// Computes the axis extrema of a series in one pass; an empty series
/// yields the zero defaults.
pub fn compute_extrema(series: &Vec<Point>) -> (e: Extrema)
    ensures
        e == extrema_spec(series@),
        e.min_x@ <= e.max_x@,
        e.min_y@ <= e.max_y@,
{
    let n = series.len();
    if n == 0 {
        let zero = Scalar { units: 0 };
        return Extrema { min_x: zero, max_x: zero, min_y: zero, max_y: zero };
    }
    let ghost xs = xs_of(series@);
    let ghost ys = ys_of(series@);
    let mut i = n - 1;
    let last = series[n - 1];
    let mut min_x = last.x.units;
    let mut max_x = last.x.units;
    let mut min_y = last.y.units;
    let mut max_y = last.y.units;
    while i > 0
        invariant
            0 <= i < n,
            n == series@.len(),
            xs == xs_of(series@),
            ys == ys_of(series@),
            min_x == min_from(xs, i as int),
            max_x == max_from(xs, i as int),
            min_y == min_from(ys, i as int),
            max_y == max_from(ys, i as int),
        decreases i,
    {
        i = i - 1;
        let p = series[i];
        proof {
            assert(xs[i as int] == p.x@);
            assert(ys[i as int] == p.y@);
        }
        if p.x.units < min_x {
            min_x = p.x.units;
        }
        if p.x.units > max_x {
            max_x = p.x.units;
        }
        if p.y.units < min_y {
            min_y = p.y.units;
        }
        if p.y.units > max_y {
            max_y = p.y.units;
        }
    }
    proof {
        lemma_from_bounds(xs, 0, 0);
        lemma_from_bounds(ys, 0, 0);
    }
    Extrema {
        min_x: Scalar { units: min_x },
        max_x: Scalar { units: max_x },
        min_y: Scalar { units: min_y },
        max_y: Scalar { units: max_y },
    }
}

/// The column a value maps to within an axis span of `extent` cells: the
/// value's offset into the span, scaled by the extent and clamped into
/// `[0, extent)`. A degenerate span (`lo == hi`) centers the point instead
/// of dividing by zero.
pub open spec fn map_coord(v: int, lo: int, hi: int, extent: int) -> int {
    if lo == hi {
        extent / 2
    } else {
        let num = if v < lo {
            0
        } else if v > hi {
            hi - lo
        } else {
            v - lo
        };
        let c = num * extent / (hi - lo);
        if c >= extent {
            extent - 1
        } else {
            c
        }
    }
}

/// The least and greatest of an all-equal suffix are that value.
proof fn lemma_from_equal(s: Seq<int>, i: int, v: int)
    requires
        0 <= i < s.len(),
        forall|j: int| 0 <= j < s.len() ==> s[j] == v,
    ensures
        min_from(s, i) == v,
        max_from(s, i) == v,
    decreases s.len() - i,
{
    if i + 1 < s.len() {
        lemma_from_equal(s, i + 1, v);
    }
}

/// A series whose values are all equal collapses the vertical extrema to
/// that value, and the mapper sends every one of its points to the centered
/// fallback cell of the span: no division by zero, no undefined result.
pub proof fn lemma_equal_values_centered(series: Seq<Point>, extent: int)
    requires
        series.len() > 0,
        forall|i: int, j: int|
            0 <= i < series.len() && 0 <= j < series.len() ==> series[i].y@ == series[j].y@,
    ensures
        extrema_spec(series).min_y@ == extrema_spec(series).max_y@,
        forall|i: int|
            0 <= i < series.len() ==> map_coord(
                #[trigger] series[i].y@,
                extrema_spec(series).min_y@,
                extrema_spec(series).max_y@,
                extent,
            ) == extent / 2,
{
    let ys = ys_of(series);
    let v = series[0].y@;
    assert forall|j: int| 0 <= j < ys.len() implies ys[j] == v by {
        assert(series[j].y@ == series[0].y@);
    }
    lemma_from_equal(ys, 0, v);
}

/// Maps a (domain, value) pair into a cell of the plot region, relative to
/// the region's origin. The row axis is flipped so the greatest value shows
/// at the top, and both coordinates are clamped inside the region.
pub fn to_pixel_coords(x: Scalar, y: Scalar, region: Region, ex: Extrema) -> (p: (u16, u16))
    requires
        region.width >= 1,
        region.height >= 1,
        ex.min_x@ <= ex.max_x@,
        ex.min_y@ <= ex.max_y@,
    ensures
        p.0 as int == map_coord(x@, ex.min_x@, ex.max_x@, region.width as int),
        p.1 as int == region.height - 1 - map_coord(y@, ex.min_y@, ex.max_y@, region.height as int),
        p.0 < region.width,
        p.1 < region.height,
{
    let col = axis_cell(x, ex.min_x, ex.max_x, region.width);
    let row_up = axis_cell(y, ex.min_y, ex.max_y, region.height);
    (col, region.height - 1 - row_up)
}

/// The shared one-axis transform behind `to_pixel_coords`.
fn axis_cell(v: Scalar, lo: Scalar, hi: Scalar, extent: u16) -> (c: u16)
    requires
        extent >= 1,
        lo@ <= hi@,
    ensures
        c as int == map_coord(v@, lo@, hi@, extent as int),
        c < extent,
{
    if lo.units == hi.units {
        return extent / 2;
    }
    let num: i128 = if v.units < lo.units {
        0
    } else if v.units > hi.units {
        hi.units as i128 - lo.units as i128
    } else {
        v.units as i128 - lo.units as i128
    };
    let range: i128 = hi.units as i128 - lo.units as i128;
    proof {
        assert(0 <= num as int * extent as int <= range as int * extent as int)
            by (nonlinear_arith)
            requires
                0 <= num <= range,
                1 <= extent,
        ;
        assert(range as int * extent as int <= u128::MAX) by (nonlinear_arith)
            requires
                0 < range < 0x20000000000000000,
                0 < extent < 0x10000,
        ;
    }
    let scaled: u128 = (num as u128) * (extent as u128);
    let c: u128 = scaled / (range as u128);
    if c >= extent as u128 {
        extent - 1
    } else {
        c as u16
    }
}

} // verus!
