//! The axis and label layer.
//!
//! Draws the bottom and left axis lines with the corner cross where they
//! meet, and the three tick labels in the margin left of the plot region.
//! Every write is clipped: labels are truncated to the available margin, so
//! nothing is ever written outside the grid.

use crate::numfmt::fixed2_chars;
use crate::numfmt::fixed2_str;
use crate::region::{CellWrite, Glyph, Region};
use crate::scalar::Scalar;
use vstd::prelude::*;

verus! {

/// The cells of the two axis lines: the bottom row, the left column, and the
/// corner cross drawn over their meeting point.
pub open spec fn axes_cells(region: Region) -> Seq<CellWrite> {
    let bottom = region.y + region.height - 1;
    Seq::new(
        region.width as nat,
        |i: int|
            CellWrite { x: (region.x + i) as u16, y: bottom as u16, glyph: Glyph::LineHorizontal },
    ) + Seq::new(
        region.height as nat,
        |i: int| CellWrite { x: region.x, y: (region.y + i) as u16, glyph: Glyph::LineVertical },
    ) + seq![CellWrite { x: region.x, y: bottom as u16, glyph: Glyph::AxisCross }]
}

/// Draws the horizontal axis along the bottom row, the vertical axis along
/// the left column, and the corner cross where they meet.
#[verifier::loop_isolation(false)]
pub fn draw_axes(region: Region) -> (cells: Vec<CellWrite>)
    requires
        region.wf(),
        region.width >= 1,
        region.height >= 1,
    ensures
        cells@ == axes_cells(region),
{
    let bottom: u16 = region.y + (region.height - 1);
    let mut cells: Vec<CellWrite> = Vec::new();
    let mut i: u16 = 0;
    while i < region.width
        invariant
            i <= region.width,
            cells@ == Seq::new(
                i as nat,
                |j: int|
                    CellWrite {
                        x: (region.x + j) as u16,
                        y: bottom,
                        glyph: Glyph::LineHorizontal,
                    },
            ),
        decreases region.width - i,
    {
        cells.push(CellWrite { x: region.x + i, y: bottom, glyph: Glyph::LineHorizontal });
        i = i + 1;
    }
    let ghost horiz = cells@;
    let mut i: u16 = 0;
    while i < region.height
        invariant
            i <= region.height,
            cells@ == horiz + Seq::new(
                i as nat,
                |j: int|
                    CellWrite { x: region.x, y: (region.y + j) as u16, glyph: Glyph::LineVertical },
            ),
        decreases region.height - i,
    {
        cells.push(CellWrite { x: region.x, y: region.y + i, glyph: Glyph::LineVertical });
        i = i + 1;
    }
    cells.push(CellWrite { x: region.x, y: bottom, glyph: Glyph::AxisCross });
    proof {
        assert(cells@ =~= axes_cells(region));
    }
    cells
}

/// The midpoint of a span, rounded down in units.
pub open spec fn mid_units(lo: int, hi: int) -> int {
    lo + (hi - lo) / 2
}

/// One label placed right-aligned so that it ends at `margin_end`: when the
/// text is wider than the margin it is truncated to the margin's width,
/// never extending past either side.
pub open spec fn label_row_cells(label: Seq<char>, margin_end: int, row: int) -> Seq<CellWrite> {
    let shown = vstd::math::min(label.len() as int, margin_end);
    Seq::new(
        shown as nat,
        |j: int|
            CellWrite {
                x: (margin_end - shown + j) as u16,
                y: row as u16,
                glyph: Glyph::Text(label[j] as u32),
            },
    )
}

/// The three tick labels: the greatest value at the top row, the midpoint a
/// third of the way down, the least value two thirds of the way down, each
/// in the fixed two-decimal form and ending at the region's left edge.
pub open spec fn label_cells(region: Region, lo: int, hi: int) -> Seq<CellWrite> {
    let third = region.height / 3;
    label_row_cells(fixed2_str(hi), region.x as int, region.y as int) + label_row_cells(
        fixed2_str(mid_units(lo, hi)),
        region.x as int,
        region.y + third,
    ) + label_row_cells(fixed2_str(lo), region.x as int, region.y + 2 * third)
}

/// Label cells stay in the margin: strictly left of the plot region, on rows
/// within the region's row span. In particular a label wider than the margin
/// never reaches outside the grid or into the plot.
pub proof fn lemma_labels_in_margin(region: Region, lo: int, hi: int)
    requires
        region.wf(),
        region.height >= 1,
    ensures
        forall|i: int|
            0 <= i < label_cells(region, lo, hi).len() ==> {
                let c = #[trigger] label_cells(region, lo, hi)[i];
                c.x < region.x && region.y <= c.y < region.y + region.height
            },
{
    let third = region.height as int / 3;
    assert(3 * third <= region.height) by {
        vstd::arithmetic::div_mod::lemma_fundamental_div_mod(region.height as int, 3);
    }
}

/// Appends one right-aligned, margin-truncated label row.
#[verifier::loop_isolation(false)]
fn push_label_row(cells: &mut Vec<CellWrite>, label: &Vec<char>, margin_end: u16, row: u16)
    ensures
        final(cells)@ == old(cells)@ + label_row_cells(label@, margin_end as int, row as int),
{
    let shown: u16 = if label.len() >= margin_end as usize {
        margin_end
    } else {
        label.len() as u16
    };
    let start: u16 = margin_end - shown;
    let mut j: u16 = 0;
    while j < shown
        invariant
            j <= shown,
            shown as int == vstd::math::min(label@.len() as int, margin_end as int),
            start == margin_end - shown,
            shown <= label@.len(),
            cells@ == old(cells)@ + label_row_cells(label@, margin_end as int, row as int).take(
                j as int,
            ),
        decreases shown - j,
    {
        let c = label[j as usize];
        cells.push(CellWrite { x: start + j, y: row, glyph: Glyph::Text(c as u32) });
        proof {
            assert(cells@ =~= old(cells)@ + label_row_cells(
                label@,
                margin_end as int,
                row as int,
            ).take(j + 1));
        }
        j = j + 1;
    }
    proof {
        assert(cells@ =~= old(cells)@ + label_row_cells(label@, margin_end as int, row as int));
    }
}

/// Draws the three tick labels for the vertical span `[lo, hi]` beside the
/// region: greatest at the top, midpoint and least below, truncated to the
/// margin.
pub fn label_axes(region: Region, lo: Scalar, hi: Scalar) -> (cells: Vec<CellWrite>)
    requires
        region.wf(),
        region.height >= 1,
        lo@ <= hi@,
    ensures
        cells@ == label_cells(region, lo@, hi@),
{
    let d: u128 = (hi.units as i128 - lo.units as i128) as u128;
    let half: i128 = (d / 2) as i128;
    proof {
        vstd::arithmetic::div_mod::lemma_div_nonincreasing(d as int, 2);
    }
    let mid = Scalar { units: (lo.units as i128 + half) as i64 };
    let third: u16 = region.height / 3;
    proof {
        assert(3 * (region.height as int / 3) <= region.height) by {
            vstd::arithmetic::div_mod::lemma_fundamental_div_mod(region.height as int, 3);
        }
    }
    let mut cells: Vec<CellWrite> = Vec::new();
    let hi_label = fixed2_chars(hi);
    let mid_label = fixed2_chars(mid);
    let lo_label = fixed2_chars(lo);
    push_label_row(&mut cells, &hi_label, region.x, region.y);
    push_label_row(&mut cells, &mid_label, region.x, region.y + third);
    push_label_row(&mut cells, &lo_label, region.x, region.y + 2 * third);
    proof {
        assert(cells@ =~= label_cells(region, lo@, hi@));
    }
    cells
}

/// The glyph at box-local position `(col, row)` of the boxed equation text:
/// a three-row bordered box whose top border carries the box title and whose
/// middle row holds the text with one space of padding at each side.
pub open spec fn box_glyph(text: Seq<char>, bw: int, col: int, row: int) -> Glyph {
    let title = "Equation"@;
    if row == 0 {
        if col == 0 {
            Glyph::CornerTopLeft
        } else if col == bw - 1 {
            Glyph::CornerTopRight
        } else if col - 1 < title.len() {
            Glyph::Text(title[col - 1] as u32)
        } else {
            Glyph::LineHorizontal
        }
    } else if row == 1 {
        if col == 0 || col == bw - 1 {
            Glyph::LineVertical
        } else if 2 <= col < 2 + text.len() {
            Glyph::Text(text[col - 2] as u32)
        } else {
            Glyph::Text(' ' as u32)
        }
    } else {
        if col == 0 {
            Glyph::CornerBottomLeft
        } else if col == bw - 1 {
            Glyph::CornerBottomRight
        } else {
            Glyph::LineHorizontal
        }
    }
}

/// One clipped row of the equation box. The box is `text.len() + 4` cells
/// wide and right-aligned along the region's top edge; whatever falls left
/// of the region or below its height is dropped.
pub open spec fn box_row_cells(region: Region, text: Seq<char>, row: int) -> Seq<CellWrite> {
    let bw = text.len() + 4;
    let bx = region.x + region.width - bw;
    let c0 = vstd::math::max(bx, region.x as int);
    let c1 = region.x + region.width;
    if row < region.height {
        Seq::new(
            (c1 - c0) as nat,
            |j: int|
                CellWrite {
                    x: (c0 + j) as u16,
                    y: (region.y + row) as u16,
                    glyph: box_glyph(text, bw as int, c0 + j - bx, row),
                },
        )
    } else {
        Seq::empty()
    }
}

/// The whole clipped equation box: its three rows, top to bottom.
pub open spec fn eq_box_cells(region: Region, text: Seq<char>) -> Seq<CellWrite> {
    box_row_cells(region, text, 0) + box_row_cells(region, text, 1) + box_row_cells(region, text, 2)
}

/// Appends one clipped row of the equation box.
#[verifier::loop_isolation(false)]
fn push_box_row(cells: &mut Vec<CellWrite>, region: Region, text: &Vec<char>, row: u16)
    requires
        region.wf(),
        row < 3,
    ensures
        final(cells)@ == old(cells)@ + box_row_cells(region, text@, row as int),
{
    if row >= region.height {
        proof {
            assert(cells@ =~= old(cells)@ + box_row_cells(region, text@, row as int));
        }
        return ;
    }
    let mut title: Vec<char> = Vec::new();
    title.push('E');
    title.push('q');
    title.push('u');
    title.push('a');
    title.push('t');
    title.push('i');
    title.push('o');
    title.push('n');
    proof {
        reveal_strlit("Equation");
        assert(title@ =~= "Equation"@);
    }
    let bw: i128 = text.len() as i128 + 4;
    let bx: i128 = region.x as i128 + region.width as i128 - bw;
    let c0: i128 = if bx > region.x as i128 {
        bx
    } else {
        region.x as i128
    };
    let c1: i128 = region.x as i128 + region.width as i128;
    let y: u16 = region.y + row;
    let mut c: i128 = c0;
    while c < c1
        invariant
            c0 <= c <= c1,
            cells@ == old(cells)@ + box_row_cells(region, text@, row as int).take(c - c0),
        decreases c1 - c,
    {
        let col: i128 = c - bx;
        let g: Glyph = if row == 0 {
            if col == 0 {
                Glyph::CornerTopLeft
            } else if col == bw - 1 {
                Glyph::CornerTopRight
            } else if col - 1 < title.len() as i128 {
                Glyph::Text(title[(col - 1) as usize] as u32)
            } else {
                Glyph::LineHorizontal
            }
        } else if row == 1 {
            if col == 0 || col == bw - 1 {
                Glyph::LineVertical
            } else if 2 <= col && col < 2 + text.len() as i128 {
                Glyph::Text(text[(col - 2) as usize] as u32)
            } else {
                Glyph::Text(' ' as u32)
            }
        } else {
            if col == 0 {
                Glyph::CornerBottomLeft
            } else if col == bw - 1 {
                Glyph::CornerBottomRight
            } else {
                Glyph::LineHorizontal
            }
        };
        cells.push(CellWrite { x: c as u16, y, glyph: g });
        proof {
            assert(cells@ =~= old(cells)@ + box_row_cells(region, text@, row as int).take(
                c - c0 + 1,
            ));
        }
        c = c + 1;
    }
    proof {
        assert(cells@ =~= old(cells)@ + box_row_cells(region, text@, row as int));
    }
}

/// Draws the boxed expression text right-aligned along the region's top
/// edge: the border, the box title, and the text inside, clipped to the
/// region. Recomputed every frame, since the expression can change.
pub fn display_equation(region: Region, text: &Vec<char>) -> (cells: Vec<CellWrite>)
    requires
        region.wf(),
    ensures
        cells@ == eq_box_cells(region, text@),
{
    let mut cells: Vec<CellWrite> = Vec::new();
    push_box_row(&mut cells, region, text, 0);
    push_box_row(&mut cells, region, text, 1);
    push_box_row(&mut cells, region, text, 2);
    proof {
        assert(cells@ =~= eq_box_cells(region, text@));
    }
    cells
}

} // verus!
