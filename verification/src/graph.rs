//! The plot composer.
//!
//! One render is a pure per-frame function: evaluate the expression at every
//! domain sample, compute the axis extrema, rasterize the segments between
//! adjacent points, then overlay axes, tick labels and the boxed expression
//! text. The contract pins the whole output down as a function of the
//! expression, the samples and the region alone, so rendering twice with the
//! same inputs yields identical cell writes, and a degenerate region yields
//! none. No input can make it fail.

use crate::axes::{
    axes_cells, display_equation, draw_axes, eq_box_cells, label_axes, label_cells,
};
use crate::equation::Equation;
use crate::mapper::{compute_extrema, extrema_spec, map_coord, to_pixel_coords, Extrema, Point};
use crate::raster::{bresenham_line, lemma_line_cells_in_box, line_cell, line_len};
use crate::region::{CellWrite, Glyph, Region};
use crate::scalar::Scalar;
use crate::var::Variable;
use vstd::prelude::*;

verus! {

/// The series an expression produces over the given domain samples: one
/// (sample, value) point per sample, in sample order.
pub open spec fn series_spec<E: Equation>(eq: E, xs: Seq<Scalar>) -> Seq<Point> {
    Seq::new(
        xs.len(),
        |i: int| Point { x: xs[i], y: Scalar { units: eq.eval_spec(xs[i]@) as i64 } },
    )
}

/// The cell a point maps to, relative to the region's origin.
pub open spec fn point_cell(p: Point, region: Region, ex: Extrema) -> (int, int) {
    (
        map_coord(p.x@, ex.min_x@, ex.max_x@, region.width as int),
        region.height - 1 - map_coord(p.y@, ex.min_y@, ex.max_y@, region.height as int),
    )
}

/// The rasterized cells of the segment between two adjacent points, as
/// absolute grid cell writes.
pub open spec fn segment_cells(p: Point, q: Point, region: Region, ex: Extrema) -> Seq<CellWrite> {
    let a = point_cell(p, region, ex);
    let b = point_cell(q, region, ex);
    Seq::new(
        line_len(a.0, a.1, b.0, b.1) as nat,
        |i: int|
            CellWrite {
                x: (region.x + line_cell(a.0, a.1, b.0, b.1, i).0) as u16,
                y: (region.y + line_cell(a.0, a.1, b.0, b.1, i).1) as u16,
                glyph: Glyph::Star,
            },
    )
}

/// The curve cells of the first `k` segments of a series.
pub open spec fn curve_cells_upto(
    series: Seq<Point>,
    region: Region,
    ex: Extrema,
    k: int,
) -> Seq<CellWrite>
    decreases k,
{
    if k <= 0 {
        Seq::empty()
    } else {
        curve_cells_upto(series, region, ex, k - 1) + segment_cells(
            series[k - 1],
            series[k],
            region,
            ex,
        )
    }
}

/// All curve cells of a series: its adjacent points connected in order.
pub open spec fn curve_cells(series: Seq<Point>, region: Region, ex: Extrema) -> Seq<CellWrite> {
    curve_cells_upto(series, region, ex, series.len() - 1)
}

/// Everything a series renders as: the curve, then the axes, then the tick
/// labels, in that order, so axes and labels win wherever they overlap the
/// curve. A degenerate region renders nothing.
pub open spec fn plot_cells(series: Seq<Point>, region: Region) -> Seq<CellWrite> {
    if region.width == 0 || region.height == 0 {
        Seq::empty()
    } else {
        let ex = extrema_spec(series);
        curve_cells(series, region, ex) + axes_cells(region) + label_cells(
            region,
            ex.min_y@,
            ex.max_y@,
        )
    }
}

/// Everything one frame renders: the series' cells and the boxed expression
/// text over them; nothing at all for a degenerate region.
pub open spec fn render_cells<E: Equation>(eq: E, xs: Seq<Scalar>, region: Region) -> Seq<
    CellWrite,
> {
    if region.width == 0 || region.height == 0 {
        Seq::empty()
    } else {
        plot_cells(series_spec(eq, xs), region) + eq_box_cells(region, eq.display_spec())
    }
}

/// Rasterizes one segment and appends its cells.
#[verifier::loop_isolation(false)]
fn push_segment(cells: &mut Vec<CellWrite>, p: Point, q: Point, region: Region, ex: Extrema)
    requires
        region.wf(),
        region.width >= 1,
        region.height >= 1,
        ex.min_x@ <= ex.max_x@,
        ex.min_y@ <= ex.max_y@,
    ensures
        final(cells)@ == old(cells)@ + segment_cells(p, q, region, ex),
{
    let a = to_pixel_coords(p.x, p.y, region, ex);
    let b = to_pixel_coords(q.x, q.y, region, ex);
    let line = bresenham_line(a.0, a.1, b.0, b.1);
    let ghost seg = segment_cells(p, q, region, ex);
    proof {
        assert(seg.len() == line@.len());
    }
    let mut i: usize = 0;
    while i < line.len()
        invariant
            i <= line@.len(),
            cells@ == old(cells)@ + seg.take(i as int),
        decreases line@.len() - i,
    {
        let (cx, cy) = line[i];
        proof {
            lemma_line_cells_in_box(a.0 as int, a.1 as int, b.0 as int, b.1 as int, i as int);
        }
        cells.push(CellWrite { x: region.x + cx, y: region.y + cy, glyph: Glyph::Star });
        proof {
            assert(cells@ =~= old(cells)@ + seg.take(i + 1));
        }
        i = i + 1;
    }
    proof {
        assert(cells@ =~= old(cells)@ + seg);
    }
}

/// Builds the series: the expression evaluated at every domain sample, in
/// sample order.
#[verifier::loop_isolation(false)]
pub fn build_series<E: Equation>(eq: &E, xs: &Vec<Scalar>) -> (series: Vec<Point>)
    ensures
        series@ == series_spec(*eq, xs@),
{
    let mut series: Vec<Point> = Vec::new();
    let mut i: usize = 0;
    while i < xs.len()
        invariant
            i <= xs@.len(),
            series@ == series_spec(*eq, xs@).take(i as int),
        decreases xs@.len() - i,
    {
        let x = xs[i];
        let y = eq.eval(&Variable::new(x));
        series.push(Point { x, y });
        proof {
            assert(series@ =~= series_spec(*eq, xs@).take(i + 1));
        }
        i = i + 1;
    }
    proof {
        assert(series@ =~= series_spec(*eq, xs@));
    }
    series
}

/// Renders a series into a region: the curve, the axes, and the tick labels,
/// in that order. A degenerate region yields no writes at all.
#[verifier::loop_isolation(false)]
pub fn plot_series(series: &Vec<Point>, region: Region) -> (cells: Vec<CellWrite>)
    requires
        region.wf(),
    ensures
        cells@ == plot_cells(series@, region),
        region.width == 0 || region.height == 0 ==> cells@ == Seq::<CellWrite>::empty(),
{
    let mut cells: Vec<CellWrite> = Vec::new();
    if region.width == 0 || region.height == 0 {
        return cells;
    }
    let ex = compute_extrema(series);
    let mut i: usize = 1;
    while i < series.len()
        invariant
            1 <= i,
            series@.len() >= 2 ==> i <= series@.len(),
            series@.len() < 2 ==> i == 1,
            cells@ == curve_cells_upto(series@, region, ex, i - 1),
        decreases series@.len() - i,
    {
        push_segment(&mut cells, series[i - 1], series[i], region, ex);
        i = i + 1;
    }
    proof {
        assert(cells@ == curve_cells(series@, region, ex));
    }
    let mut axes = draw_axes(region);
    cells.append(&mut axes);
    let mut labels = label_axes(region, ex.min_y, ex.max_y);
    cells.append(&mut labels);
    proof {
        assert(cells@ =~= plot_cells(series@, region));
    }
    cells
}

/// A graph: an expression and the domain samples to plot it over.
#[derive(Clone, Debug)]
pub struct Graph<E: Equation> {
    pub equation: E,
    pub x_values: Vec<Scalar>,
}

impl<E: Equation> Graph<E> {
    /// A graph from an expression and its domain samples.
    pub fn new(equation: E, x_values: Vec<Scalar>) -> (g: Graph<E>)
        ensures
            g.equation == equation,
            g.x_values == x_values,
    {
        Graph { equation, x_values }
    }

    /// Renders one frame of the graph into the region.
    ///
    /// The output is a function of the expression, the samples and the
    /// region alone, so two renders with identical inputs produce identical
    /// cell-write sequences; a region of zero width or height produces none.
    pub fn render(&self, region: Region) -> (cells: Vec<CellWrite>)
        requires
            region.wf(),
        ensures
            cells@ == render_cells(self.equation, self.x_values@, region),
            region.width == 0 || region.height == 0 ==> cells@ == Seq::<CellWrite>::empty(),
    {
        let series = build_series(&self.equation, &self.x_values);
        let mut cells = plot_series(&series, region);
        if region.width > 0 && region.height > 0 {
            let text = self.equation.display_chars();
            let mut boxed = display_equation(region, &text);
            cells.append(&mut boxed);
        }
        proof {
            assert(cells@ =~= render_cells(self.equation, self.x_values@, region));
        }
        cells
    }
}

} // verus!
