//! Line rasterization.
//!
//! `bresenham_line` turns a pair of endpoint cells into the ordered list of
//! grid cells that connect them, using the classic integer error-accumulator
//! walk: the accumulator starts at half the major delta, each iteration steps
//! one unit along an axis, and the walk ends exactly when both coordinates
//! reach the target, with both endpoints included.
//!
//! The contract pins every produced cell down with a closed form: along the
//! major axis the offset is the iteration index itself, and along the minor
//! axis it is the rounded share `ceil((i * minor - major / 2) / major)` of the
//! minor delta.

use vstd::arithmetic::div_mod::lemma_fundamental_div_mod_converse;
use vstd::prelude::*;

verus! {

/// The absolute difference of two coordinates.
pub open spec fn abs_delta(a: int, b: int) -> int {
    if a <= b {
        b - a
    } else {
        a - b
    }
}

/// The unit step that moves `a` toward `b` (`-1` when they are equal,
/// matching an error walk that never takes that step).
pub open spec fn step_sign(a: int, b: int) -> int {
    if a < b {
        1
    } else {
        -1
    }
}

/// The number of cells a rasterized segment consists of.
pub open spec fn line_len(x1: int, y1: int, x2: int, y2: int) -> int {
    vstd::math::max(abs_delta(x1, x2), abs_delta(y1, y2)) + 1
}

/// The rounded share of the minor delta that the minor axis has advanced by
/// after `i` steps along the major axis: `ceil((i * minor - major / 2) / major)`.
pub open spec fn minor_offset(i: int, minor: int, major: int) -> int {
    (i * minor - major / 2 + major - 1) / major
}

/// The `i`-th cell of the rasterized segment from `(x1, y1)` to `(x2, y2)`,
/// for `0 <= i < line_len(x1, y1, x2, y2)`.
pub open spec fn line_cell(x1: int, y1: int, x2: int, y2: int, i: int) -> (int, int) {
    let dx = abs_delta(x1, x2);
    let dy = abs_delta(y1, y2);
    let sx = step_sign(x1, x2);
    let sy = step_sign(y1, y2);
    if dx == 0 && dy == 0 {
        (x1, y1)
    } else if dx >= dy {
        (x1 + sx * i, y1 + sy * minor_offset(i, dy, dx))
    } else {
        (x1 + sx * minor_offset(i, dx, dy), y1 + sy * i)
    }
}

/// Every cell of a segment stays inside the bounding box of its endpoints.
pub proof fn lemma_line_cells_in_box(x1: int, y1: int, x2: int, y2: int, i: int)
    requires
        0 <= i < line_len(x1, y1, x2, y2),
    ensures
        vstd::math::min(x1, x2) <= line_cell(x1, y1, x2, y2, i).0 <= vstd::math::max(x1, x2),
        vstd::math::min(y1, y2) <= line_cell(x1, y1, x2, y2, i).1 <= vstd::math::max(y1, y2),
{
    let dx = abs_delta(x1, x2);
    let dy = abs_delta(y1, y2);
    if dx == 0 && dy == 0 {
    } else if dx >= dy {
        lemma_minor_offset_bounds(i, dy, dx);
        let o = minor_offset(i, dy, dx);
        if x1 < x2 {
            assert(step_sign(x1, x2) * i == i);
        } else {
            assert(step_sign(x1, x2) * i == -i);
        }
        if y1 < y2 {
            assert(step_sign(y1, y2) * o == o);
        } else {
            assert(step_sign(y1, y2) * o == -o);
        }
    } else {
        lemma_minor_offset_bounds(i, dx, dy);
        let o = minor_offset(i, dx, dy);
        if x1 < x2 {
            assert(step_sign(x1, x2) * o == o);
        } else {
            assert(step_sign(x1, x2) * o == -o);
        }
        if y1 < y2 {
            assert(step_sign(y1, y2) * i == i);
        } else {
            assert(step_sign(y1, y2) * i == -i);
        }
    }
}

/// The minor-axis offset starts at zero, never exceeds the minor delta, and
/// reaches it exactly at the last step.
pub proof fn lemma_minor_offset_bounds(i: int, minor: int, major: int)
    requires
        0 <= minor <= major,
        1 <= major,
        0 <= i <= major,
    ensures
        0 <= minor_offset(i, minor, major) <= minor,
        i == 0 ==> minor_offset(i, minor, major) == 0,
        i == major ==> minor_offset(i, minor, major) == minor,
{
    let h = major / 2;
    assert(0 <= h < major);
    if i == 0 {
        lemma_fundamental_div_mod_converse(0 * minor - h + major - 1, major, 0, major - 1 - h);
    }
    if i == major {
        assert(major * minor - h + major - 1 == minor * major + (major - 1 - h)) by (nonlinear_arith);
        lemma_fundamental_div_mod_converse(
            major * minor - h + major - 1,
            major,
            minor,
            major - 1 - h,
        );
    }
    // 0 <= offset: the numerator is at least -(major - 1), whose quotient is 0 or more
    // once `major - 1` has been added; offset <= minor: the numerator is at most
    // minor * major + major - 1.
    assert(0 <= i * minor <= major * minor) by (nonlinear_arith)
        requires
            0 <= i <= major,
            0 <= minor,
    ;
    let a = i * minor - h + major - 1;
    assert(major * minor == minor * major) by (nonlinear_arith);
    assert(0 <= a <= minor * major + major - 1);
    assert(a / major >= 0) by {
        vstd::arithmetic::div_mod::lemma_div_pos_is_pos(a, major);
    }
    assert(a / major <= (minor * major + major - 1) / major) by {
        vstd::arithmetic::div_mod::lemma_div_is_ordered(a, minor * major + major - 1, major);
    }
    assert((minor * major + major - 1) / major == minor) by {
        lemma_fundamental_div_mod_converse(minor * major + major - 1, major, minor, major - 1);
    }
}

/// Rasterizes the segment between two cells, both endpoints included.
///
/// The result is pinned down cell by cell: `line_len` many cells, the `i`-th
/// equal to `line_cell` at `i`.
#[verifier::rlimit(50)]
#[verifier::loop_isolation(false)]
pub fn bresenham_line(x1: u16, y1: u16, x2: u16, y2: u16) -> (cells: Vec<(u16, u16)>)
    ensures
        cells@.len() == line_len(x1 as int, y1 as int, x2 as int, y2 as int),
        forall|i: int|
            0 <= i < cells@.len() ==> (#[trigger] cells@[i]).0 as int == line_cell(
                x1 as int,
                y1 as int,
                x2 as int,
                y2 as int,
                i,
            ).0 && cells@[i].1 as int == line_cell(x1 as int, y1 as int, x2 as int, y2 as int, i).1,
{
    let ghost gx1 = x1 as int;
    let ghost gy1 = y1 as int;
    let ghost gx2 = x2 as int;
    let ghost gy2 = y2 as int;
    let dx: i64 = if x1 <= x2 {
        (x2 - x1) as i64
    } else {
        (x1 - x2) as i64
    };
    let dy: i64 = if y1 <= y2 {
        (y2 - y1) as i64
    } else {
        (y1 - y2) as i64
    };
    let sx: i64 = if x1 < x2 {
        1
    } else {
        -1
    };
    let sy: i64 = if y1 < y2 {
        1
    } else {
        -1
    };
    let n: i64 = if dx >= dy {
        dx
    } else {
        dy
    };
    let mut err: i64 = if dx >= dy {
        ((dx as u64) / 2) as i64
    } else {
        -(((dy as u64) / 2) as i64)
    };
    let mut cx: i64 = x1 as i64;
    let mut cy: i64 = y1 as i64;
    let ghost mut k: int = 0;
    let mut cells: Vec<(u16, u16)> = Vec::new();
    let mut i: i64 = 0;
    while i <= n
        invariant
            0 <= i <= n + 1,
            cells@.len() == i,
            forall|j: int|
                0 <= j < i ==> (#[trigger] cells@[j]).0 as int == line_cell(gx1, gy1, gx2, gy2, j).0
                    && cells@[j].1 as int == line_cell(gx1, gy1, gx2, gy2, j).1,
            i <= n ==> 0 <= k,
            i <= n && dx >= dy ==> cx == gx1 + sx * i && cy == gy1 + sy * k && k <= dy && err == dx
                / 2 - i * dy + k * dx,
            i <= n && dx >= dy && dx > 0 ==> 0 <= err < dx,
            i <= n && dx < dy ==> cy == gy1 + sy * i && cx == gx1 + sx * k && k <= dx && err == i
                * dx - dy / 2 - k * dy,
            i <= n && dx < dy ==> -dy < err <= 0,
            vstd::math::min(gx1, gx2) <= cx <= vstd::math::max(gx1, gx2),
            vstd::math::min(gy1, gy2) <= cy <= vstd::math::max(gy1, gy2),
        decreases n + 1 - i,
    {
        proof {
            if i <= n {
                if dx == 0 && dy == 0 {
                    assert(cx == gx1 && cy == gy1);
                } else if dx >= dy {
                    lemma_fundamental_div_mod_converse(
                        i * (dy as int) - dx / 2 + dx - 1,
                        dx as int,
                        k,
                        dx - 1 - err,
                    );
                    assert(k == minor_offset(i as int, dy as int, dx as int));
                } else {
                    lemma_fundamental_div_mod_converse(
                        i * (dx as int) - dy / 2 + dy - 1,
                        dy as int,
                        k,
                        err + dy - 1,
                    );
                    assert(k == minor_offset(i as int, dx as int, dy as int));
                }
            }
        }
        cells.push((cx as u16, cy as u16));
        if i < n {
            let e2 = err;
            proof {
                if dx >= dy {
                    // the major (x) step is always taken: err is nonnegative
                    assert(e2 > -dx);
                    if e2 < dy {
                        // the minor offset cannot already have reached dy
                        if k == dy {
                            assert(err == dx / 2 - i * dy + dy * dx);
                            assert(dy * dx - i * dy >= dy) by (nonlinear_arith)
                                requires
                                    i < dx,
                                    0 <= i,
                                    0 <= dy,
                            ;
                            assert(false);
                        }
                    }
                } else {
                    // the major (y) step is always taken: err is nonpositive
                    assert(e2 < dy);
                    if e2 > -dx {
                        if k == dx {
                            assert(err == i * dx - dy / 2 - dx * dy);
                            assert(dx * dy - i * dx >= dx) by (nonlinear_arith)
                                requires
                                    i < dy,
                                    0 <= i,
                                    0 <= dx,
                            ;
                            assert(false);
                        }
                    }
                }
                assert(sx * (i + 1) == sx * i + sx) by (nonlinear_arith);
                assert(sy * (i + 1) == sy * i + sy) by (nonlinear_arith);
                assert(sx * (k + 1) == sx * k + sx) by (nonlinear_arith);
                assert(sy * (k + 1) == sy * k + sy) by (nonlinear_arith);
                assert((i + 1) * (dy as int) == i * (dy as int) + dy) by (nonlinear_arith);
                assert((i + 1) * (dx as int) == i * (dx as int) + dx) by (nonlinear_arith);
                assert((k + 1) * (dx as int) == k * (dx as int) + dx) by (nonlinear_arith);
                assert((k + 1) * (dy as int) == k * (dy as int) + dy) by (nonlinear_arith);
            }
            if e2 > -dx {
                err = err - dy;
                cx = cx + sx;
                proof {
                    if dx < dy {
                        k = k + 1;
                    }
                }
            }
            if e2 < dy {
                err = err + dx;
                cy = cy + sy;
                proof {
                    if dx >= dy {
                        k = k + 1;
                    }
                }
            }
        }
        i = i + 1;
    }
    cells
}

} // verus!
