use gridplot::axes::{display_equation, draw_axes, label_axes};
use gridplot::equation::{Equation, LinearEquation};
use gridplot::graph::{build_series, plot_series, Graph};
use gridplot::mapper::{compute_extrema, to_pixel_coords, Extrema, Point};
use gridplot::raster::bresenham_line;
use gridplot::region::{CellWrite, Glyph, Region};
use gridplot::sampler::sample_domain;
use gridplot::scalar::Scalar;
use gridplot::var::Variable;

fn sc(units: i64) -> Scalar {
    Scalar::new(units)
}

fn whole(n: i64) -> Scalar {
    Scalar::from_int(n)
}

#[test]
fn zero_width_region_renders_nothing() {
    let g = Graph::new(LinearEquation::new(sc(100), sc(0)), vec![whole(-1), whole(0), whole(1)]);
    let cells = g.render(Region::new(3, 2, 0, 10));
    assert!(cells.is_empty());
}

#[test]
fn zero_height_region_renders_nothing() {
    let g = Graph::new(LinearEquation::new(sc(100), sc(0)), vec![whole(-1), whole(0), whole(1)]);
    let cells = g.render(Region::new(3, 2, 10, 0));
    assert!(cells.is_empty());
}

#[test]
fn equal_values_collapse_extrema_and_center_the_row() {
    // every value equal: min_y == max_y, and each point maps to the centered
    // fallback row of the span
    let series = vec![
        Point { x: whole(0), y: sc(700) },
        Point { x: whole(1), y: sc(700) },
        Point { x: whole(2), y: sc(700) },
    ];
    let ex = compute_extrema(&series);
    assert_eq!(ex.min_y, sc(700));
    assert_eq!(ex.max_y, sc(700));
    let region = Region::new(0, 0, 10, 9);
    for p in &series {
        let (_, row) = to_pixel_coords(p.x, p.y, region, ex);
        // centered fallback: column height/2 = 4, flipped row = 9 - 1 - 4
        assert_eq!(row, 4);
    }
}

#[test]
fn horizontal_segment_cells() {
    let cells = bresenham_line(0, 0, 5, 0);
    assert_eq!(cells, vec![(0, 0), (1, 0), (2, 0), (3, 0), (4, 0), (5, 0)]);
}

#[test]
fn vertical_segment_cells() {
    let cells = bresenham_line(0, 0, 0, 5);
    assert_eq!(cells, vec![(0, 0), (0, 1), (0, 2), (0, 3), (0, 4), (0, 5)]);
}

#[test]
fn diagonal_segment_cells() {
    let cells = bresenham_line(0, 0, 3, 3);
    assert_eq!(cells, vec![(0, 0), (1, 1), (2, 2), (3, 3)]);
}

#[test]
fn reversed_segment_covers_the_same_cells() {
    let mut fwd = bresenham_line(0, 0, 5, 5);
    let mut rev = bresenham_line(5, 5, 0, 0);
    fwd.sort();
    rev.sort();
    assert_eq!(fwd, rev);
}

#[test]
fn shallow_reversed_segment_covers_the_same_cells() {
    let mut fwd = bresenham_line(0, 0, 5, 2);
    let mut rev = bresenham_line(5, 2, 0, 0);
    fwd.sort();
    rev.sort();
    assert_eq!(fwd, rev);
}

#[test]
fn linear_display_text() {
    // m = 4.5, b = 2.0
    let eq = LinearEquation::new(sc(450), sc(200));
    assert_eq!(eq.display(), "y = 4.5x + 2");
    let chars: String = eq.display_chars().into_iter().collect();
    assert_eq!(chars, "y = 4.5x + 2");
}

#[test]
fn identity_series_and_extrema() {
    // samples [-2, -1, 0, 1, 2] under f(x) = x
    let eq = LinearEquation::new(whole(1), sc(0));
    let xs = vec![whole(-2), whole(-1), whole(0), whole(1), whole(2)];
    let series = build_series(&eq, &xs);
    assert_eq!(series.len(), 5);
    for (i, x) in [-2i64, -1, 0, 1, 2].iter().enumerate() {
        assert_eq!(series[i].x, whole(*x));
        assert_eq!(series[i].y, whole(*x));
    }
    let ex = compute_extrema(&series);
    assert_eq!(ex.min_x, whole(-2));
    assert_eq!(ex.max_x, whole(2));
    assert_eq!(ex.min_y, whole(-2));
    assert_eq!(ex.max_y, whole(2));
    // the midpoint label between -2 and 2 reads "0.00"
    let labels = label_axes(Region::new(4, 0, 10, 9), ex.min_y, ex.max_y);
    let mid_row: String = labels
        .iter()
        .filter(|c| c.y == 3)
        .map(|c| match c.glyph {
            Glyph::Text(u) => char::from_u32(u).unwrap(),
            _ => '?',
        })
        .collect();
    assert_eq!(mid_row, "0.00");
}

#[test]
fn render_is_deterministic() {
    let g = Graph::new(
        LinearEquation::new(sc(450), sc(200)),
        vec![whole(-2), whole(-1), whole(0), whole(1), whole(2)],
    );
    let region = Region::new(6, 1, 30, 12);
    let first = g.render(region);
    let second = g.render(region);
    assert_eq!(first, second);
    assert!(!first.is_empty());
}

#[test]
fn wide_labels_truncate_to_the_margin() {
    // labels far wider than any of several small margins: never a write
    // outside the grid or right of the margin
    let mut seed: i64 = 0x9e3779b97f4a7c15u64 as i64;
    for margin in 0..6u16 {
        for height in 1..5u16 {
            seed = seed.wrapping_mul(6364136223846793005).wrapping_add(1442695040888963407);
            let a = seed.wrapping_shr(8);
            let (lo, hi) = if a < 0 { (a, i64::MAX) } else { (i64::MIN, a) };
            let region = Region::new(margin, 0, 5, height);
            let labels = label_axes(region, sc(lo), sc(hi));
            for c in &labels {
                assert!(c.x < region.x, "label cell {:?} reaches into the plot", c);
                assert!(c.y < region.y + region.height);
            }
        }
    }
}

#[test]
fn full_render_of_a_tiny_region() {
    // y = x over [0, 1] in a 2-by-2 region at the grid origin: two curve
    // cells, then the axes, no labels (no margin), then the clipped corner
    // of the equation box
    let g = Graph::new(LinearEquation::new(whole(1), sc(0)), vec![whole(0), whole(1)]);
    let cells = g.render(Region::new(0, 0, 2, 2));
    assert_eq!(
        cells,
        vec![
            CellWrite { x: 0, y: 1, glyph: Glyph::Star },
            CellWrite { x: 1, y: 0, glyph: Glyph::Star },
            CellWrite { x: 0, y: 1, glyph: Glyph::LineHorizontal },
            CellWrite { x: 1, y: 1, glyph: Glyph::LineHorizontal },
            CellWrite { x: 0, y: 0, glyph: Glyph::LineVertical },
            CellWrite { x: 0, y: 1, glyph: Glyph::LineVertical },
            CellWrite { x: 0, y: 1, glyph: Glyph::AxisCross },
            CellWrite { x: 0, y: 0, glyph: Glyph::LineHorizontal },
            CellWrite { x: 1, y: 0, glyph: Glyph::CornerTopRight },
            CellWrite { x: 0, y: 1, glyph: Glyph::Text(' ' as u32) },
            CellWrite { x: 1, y: 1, glyph: Glyph::LineVertical },
        ]
    );
}

#[test]
fn no_margin_no_label_cells() {
    let labels = label_axes(Region::new(0, 0, 5, 6), whole(-1), whole(1));
    assert!(labels.is_empty());
}

#[test]
fn axes_cover_bottom_row_and_left_column() {
    let region = Region::new(1, 1, 2, 2);
    let cells = draw_axes(region);
    assert_eq!(
        cells,
        vec![
            CellWrite { x: 1, y: 2, glyph: Glyph::LineHorizontal },
            CellWrite { x: 2, y: 2, glyph: Glyph::LineHorizontal },
            CellWrite { x: 1, y: 1, glyph: Glyph::LineVertical },
            CellWrite { x: 1, y: 2, glyph: Glyph::LineVertical },
            CellWrite { x: 1, y: 2, glyph: Glyph::AxisCross },
        ]
    );
}

#[test]
fn axes_win_ties_with_the_curve() {
    // a flat series sits on some row; the axis pass comes after every curve
    // cell, so on a shared cell the axis write is the later one
    let series = vec![Point { x: whole(0), y: whole(1) }, Point { x: whole(1), y: whole(1) }];
    let region = Region::new(0, 0, 2, 2);
    let cells = plot_series(&series, region);
    let last_star = cells.iter().rposition(|c| c.glyph == Glyph::Star);
    let first_axis = cells
        .iter()
        .position(|c| matches!(c.glyph, Glyph::LineHorizontal | Glyph::LineVertical));
    match (last_star, first_axis) {
        (Some(s), Some(a)) => assert!(s < a, "axes must be drawn after the curve"),
        _ => panic!("expected both curve and axis cells"),
    }
}

#[test]
fn equation_box_is_right_aligned_with_title() {
    let eq = LinearEquation::new(sc(450), sc(200));
    let text = eq.display_chars();
    let n = text.len() as u16; // 12
    let region = Region::new(0, 0, 40, 10);
    let cells = display_equation(region, &text);
    // box occupies columns 40-(n+4) .. 40, rows 0..3
    let bx = 40 - (n + 4);
    assert!(cells.contains(&CellWrite { x: bx, y: 0, glyph: Glyph::CornerTopLeft }));
    assert!(cells.contains(&CellWrite { x: 39, y: 0, glyph: Glyph::CornerTopRight }));
    assert!(cells.contains(&CellWrite { x: bx, y: 2, glyph: Glyph::CornerBottomLeft }));
    assert!(cells.contains(&CellWrite { x: 39, y: 2, glyph: Glyph::CornerBottomRight }));
    // the title starts right of the top-left corner
    assert!(cells.contains(&CellWrite { x: bx + 1, y: 0, glyph: Glyph::Text('E' as u32) }));
    // the text row: border, one space, then the text
    assert!(cells.contains(&CellWrite { x: bx, y: 1, glyph: Glyph::LineVertical }));
    assert!(cells.contains(&CellWrite { x: bx + 2, y: 1, glyph: Glyph::Text('y' as u32) }));
    for c in &cells {
        assert!(c.x >= bx && c.x < 40 && c.y < 3);
    }
}

#[test]
fn equation_box_clips_to_a_narrow_region() {
    let eq = LinearEquation::new(sc(450), sc(200));
    let text = eq.display_chars();
    let region = Region::new(10, 0, 4, 10);
    let cells = display_equation(region, &text);
    for c in &cells {
        assert!(c.x >= 10 && c.x < 14 && c.y < 3);
    }
    assert_eq!(cells.len(), 12);
}

#[test]
fn sample_domain_is_evenly_spaced() {
    let xs = sample_domain(whole(-2), whole(2), 5);
    let units: Vec<i64> = xs.iter().map(|s| s.units).collect();
    assert_eq!(units, vec![-200, -100, 0, 100, 200]);
}

#[test]
fn sample_domain_degenerate_counts() {
    assert!(sample_domain(whole(0), whole(1), 0).is_empty());
    let one = sample_domain(whole(3), whole(9), 1);
    assert_eq!(one.len(), 1);
    assert_eq!(one[0], whole(3));
}

#[test]
fn evaluation_is_exact_and_repeatable() {
    // y = 4.5 x + 2 at x = 2 is 11
    let eq = LinearEquation::new(sc(450), sc(200));
    let v = Variable::new(whole(2));
    let once = eq.eval(&v);
    let again = eq.eval(&v);
    assert_eq!(once, sc(1100));
    assert_eq!(once, again);
}

#[test]
fn evaluation_handles_negative_products() {
    // y = -0.5 x + 1 at x = 3 is -0.5
    let eq = LinearEquation::new(sc(-50), sc(100));
    let r = eq.eval(&Variable::new(whole(3)));
    assert_eq!(r, sc(-50));
}

#[test]
fn empty_series_extrema_default_to_zero() {
    let ex = compute_extrema(&Vec::new());
    assert_eq!(
        ex,
        Extrema { min_x: sc(0), max_x: sc(0), min_y: sc(0), max_y: sc(0) }
    );
}

#[test]
fn mapper_clamps_to_the_region() {
    let ex = Extrema { min_x: whole(0), max_x: whole(10), min_y: whole(0), max_y: whole(10) };
    let region = Region::new(0, 0, 10, 10);
    let (c0, r0) = to_pixel_coords(whole(0), whole(0), region, ex);
    assert_eq!((c0, r0), (0, 9));
    let (c1, r1) = to_pixel_coords(whole(10), whole(10), region, ex);
    assert_eq!((c1, r1), (9, 0));
    // values outside the extrema saturate at the region border
    let (c2, r2) = to_pixel_coords(whole(-5), whole(25), region, ex);
    assert_eq!((c2, r2), (0, 0));
}

#[test]
fn saturating_scalar_arithmetic() {
    assert_eq!(sc(i64::MAX).add_sat(sc(1)), sc(i64::MAX));
    assert_eq!(sc(i64::MIN).sub_sat(sc(1)), sc(i64::MIN));
    assert_eq!(Scalar::from_int(i64::MAX), sc(i64::MAX));
    assert_eq!(sc(200).add_sat(sc(-50)), sc(150));
}

#[test]
fn wave_buffer_overwrites_the_oldest() {
    let mut b = gridplot::sampler::WaveBuffer::new(3);
    assert_eq!(b.len(), 0);
    b.push(sc(1));
    b.push(sc(2));
    b.push(sc(3));
    assert_eq!(b.snapshot(), vec![sc(1), sc(2), sc(3)]);
    b.push(sc(4));
    assert_eq!(b.len(), 3);
    assert_eq!(b.snapshot(), vec![sc(2), sc(3), sc(4)]);
    b.push(sc(5));
    assert_eq!(b.snapshot(), vec![sc(3), sc(4), sc(5)]);
}
