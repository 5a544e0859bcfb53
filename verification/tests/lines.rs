use rasterizer::canvas::{Canvas, DEPTH_INFINITY};
use rasterizer::fixed::{CHANNEL_MAX, HALF, ONE};
use rasterizer::line::{line_color, LINE_DEPTH};
use rasterizer::vector::Vec3;

/// The pixels of an 16 by 16 canvas that a line from `b` to `e` lights,
/// sorted, as `(x, y)` with the origin at pixel `(4, 4)`.
fn lit(b: (i32, i32), e: (i32, i32)) -> Vec<(i64, i64)> {
    let mut c = Canvas::new(16, 16);
    let shift = 4 * ONE;
    c.draw_line(&Vec3::new(b.0 + shift, b.1 + shift, 0), &Vec3::new(e.0 + shift, e.1 + shift, 0));
    let mut out = Vec::new();
    for (i, px) in c.framebuffer().iter().enumerate() {
        if *px != Vec3::new(0, 0, 0) {
            assert_eq!(*px, Vec3::new(CHANNEL_MAX, CHANNEL_MAX, CHANNEL_MAX));
            assert_eq!(c.depthbuffer()[i], ONE as i64);
            out.push(((i % 16) as i64 - 4, 15 - (i / 16) as i64 - 4));
        } else {
            assert_eq!(c.depthbuffer()[i], DEPTH_INFINITY);
        }
    }
    out.sort();
    out
}

fn sorted(mut v: Vec<(i64, i64)>) -> Vec<(i64, i64)> {
    v.sort();
    v
}

#[test]
fn line_from_origin_to_5_2_plots_the_hand_traced_pixels() {
    let want = vec![(0, 0), (1, 0), (2, 1), (3, 1), (4, 2), (5, 2)];
    assert_eq!(lit((0, 0), (5 * ONE, 2 * ONE)), want);
}

#[test]
fn line_is_the_same_walked_from_either_end() {
    let want = vec![(0, 0), (1, 0), (2, 1), (3, 1), (4, 2), (5, 2)];
    assert_eq!(lit((5 * ONE, 2 * ONE), (0, 0)), want);
}

#[test]
fn steep_line_steps_along_y() {
    let want = vec![(0, 0), (0, 1), (1, 2), (1, 3), (2, 4), (2, 5)];
    assert_eq!(lit((0, 0), (2 * ONE, 5 * ONE)), want);
}

#[test]
fn falling_lines_step_the_secondary_coordinate_down() {
    let want = sorted(vec![(0, 5), (1, 4), (2, 3), (3, 2), (4, 1), (5, 0)]);
    assert_eq!(lit((0, 5 * ONE), (5 * ONE, 0)), want);
    let steep = sorted(vec![(3, 0), (2, 1), (2, 2), (1, 3), (1, 4), (0, 5), (0, 6)]);
    assert_eq!(lit((3 * ONE, 0), (0, 6 * ONE)), steep);
}

#[test]
fn decision_variable_of_zero_steps_along_either_axis() {
    assert_eq!(lit((0, 0), (4 * ONE, 2 * ONE)), vec![(0, 0), (1, 1), (2, 1), (3, 2), (4, 2)]);
    assert_eq!(lit((0, 0), (2 * ONE, 4 * ONE)), vec![(0, 0), (1, 1), (1, 2), (2, 3), (2, 4)]);
}

#[test]
fn steep_line_with_a_tie_at_its_start_lights_the_expected_cells() {
    let mut c = Canvas::new(8, 8);
    c.draw_line(&Vec3::new(0, 0, 0), &Vec3::new(2 * ONE, 4 * ONE, 0));
    let white = line_color();
    for (i, px) in c.framebuffer().iter().enumerate() {
        if [56, 49, 41, 34, 26].contains(&i) {
            assert_eq!(*px, white);
        } else {
            assert_eq!(*px, Vec3::new(0, 0, 0));
        }
    }
}

#[test]
fn axis_aligned_lines_do_not_leave_their_row_or_column() {
    assert_eq!(lit((0, ONE), (3 * ONE, ONE)), vec![(0, 1), (1, 1), (2, 1), (3, 1)]);
    assert_eq!(lit((ONE, 3 * ONE), (ONE, 0)), vec![(1, 0), (1, 1), (1, 2), (1, 3)]);
}

#[test]
fn line_of_no_extent_is_one_pixel() {
    assert_eq!(lit((2 * ONE, 3 * ONE), (2 * ONE, 3 * ONE)), vec![(2, 3)]);
    assert_eq!(lit((2 * ONE + 5, 3 * ONE), (2 * ONE + 9, 3 * ONE + 1)), vec![(2, 3)]);
}

#[test]
fn diagonal_line_steps_both_coordinates_every_time() {
    assert_eq!(lit((0, 0), (3 * ONE, 3 * ONE)), vec![(0, 0), (1, 1), (2, 2), (3, 3)]);
    assert_eq!(lit((0, 0), (-3 * ONE, -3 * ONE)), vec![(-3, -3), (-2, -2), (-1, -1), (0, 0)]);
}

#[test]
fn line_between_fractional_endpoints_may_miss_the_far_one() {
    // From (0.5, 0) to (1, 0.4): the far endpoint lies in pixel (1, 0).
    assert_eq!(lit((HALF, 0), (ONE, 26214)), vec![(0, 0), (1, 1)]);
}

#[test]
fn line_parts_off_the_canvas_are_discarded() {
    let mut c = Canvas::new(3, 3);
    c.draw_line(&Vec3::new(-2 * ONE, ONE, 0), &Vec3::new(5 * ONE, ONE, 0));
    let w = line_color();
    let k = Vec3::new(0, 0, 0);
    assert_eq!(*c.framebuffer(), vec![k, k, k, w, w, w, k, k, k]);
}

#[test]
fn line_yields_to_what_is_nearer_and_covers_what_is_deeper() {
    let mut c = Canvas::new(3, 1);
    let red = Vec3::new(CHANNEL_MAX, 0, 0);
    c.set_pixel(&rasterizer::canvas::Pixel { x: 0, y: 0, depth: LINE_DEPTH - 1 }, &red);
    c.set_pixel(&rasterizer::canvas::Pixel { x: 1, y: 0, depth: LINE_DEPTH }, &red);
    c.set_pixel(&rasterizer::canvas::Pixel { x: 2, y: 0, depth: LINE_DEPTH + 1 }, &red);
    c.draw_line(&Vec3::new(0, 0, 0), &Vec3::new(2 * ONE, 0, 0));
    assert_eq!(*c.framebuffer(), vec![red, red, line_color()]);
}

#[test]
fn line_color_is_white_at_depth_one() {
    assert_eq!(line_color(), Vec3::new(CHANNEL_MAX, CHANNEL_MAX, CHANNEL_MAX));
    assert_eq!(LINE_DEPTH, ONE);
}
