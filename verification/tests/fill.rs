use rasterizer::canvas::{Canvas, DEPTH_INFINITY};
use rasterizer::fill::{area2_value, compute_barycentric_2d, interpolate_depth, shade};
use rasterizer::fixed::{CHANNEL_MAX, HALF, ONE};
use rasterizer::triangle::Triangle;
use rasterizer::vector::{Vec3, Vec4};

fn corner() -> [Vec3; 3] {
    [Vec3::new(0, 0, 10 * ONE), Vec3::new(4 * ONE, 0, 20 * ONE), Vec3::new(0, 4 * ONE, 30 * ONE)]
}

fn colored(v: [Vec3; 3]) -> Triangle {
    let mut t = Triangle::default();
    for i in 0..3 {
        t.set_vertex(i, v[i]).unwrap();
    }
    t.set_color(0, 10 * ONE, 20 * ONE, 30 * ONE).unwrap();
    t.set_color(1, 40 * ONE, 50 * ONE, 60 * ONE).unwrap();
    t.set_color(2, 70 * ONE, 80 * ONE, 90 * ONE).unwrap();
    t
}

/// The written cells of a canvas as `(x, y, depth, color)`, sorted.
fn written(c: &Canvas) -> Vec<(usize, usize, i64, Vec3)> {
    let (w, h) = (c.width(), c.height());
    let mut out = Vec::new();
    for (i, d) in c.depthbuffer().iter().enumerate() {
        if *d != DEPTH_INFINITY {
            out.push((i % w, h - 1 - i / w, *d, c.framebuffer()[i]));
        }
    }
    out.sort_by_key(|e| (e.0, e.1));
    out
}

#[test]
fn area_is_twice_the_signed_area() {
    let v = corner();
    assert_eq!(area2_value(&v[1], &v[2], 0, 0), 16 * (ONE as i128) * (ONE as i128));
    assert_eq!(area2_value(&v[2], &v[1], 0, 0), -16 * (ONE as i128) * (ONE as i128));
    assert_eq!(area2_value(&v[1], &v[2], 2 * ONE, 2 * ONE), 0);
    let a = Vec3::new(1, 2, 0);
    let b = Vec3::new(5, 3, 0);
    assert_eq!(area2_value(&a, &b, 7, 11), 7 * (2 - 3) + (5 - 1) * 11 + 1 * 3 - 5 * 2);
}

#[test]
fn barycentric_weights_have_their_exact_values() {
    let v = corner();
    assert_eq!(compute_barycentric_2d(ONE, ONE, &v), (32768, 16384, 16384));
    assert_eq!(compute_barycentric_2d(ONE + HALF, HALF, &v), (32768, 24576, 8192));
    assert_eq!(compute_barycentric_2d(0, 0, &v), (ONE, 0, 0));
    assert_eq!(compute_barycentric_2d(4 * ONE, 0, &v), (0, ONE, 0));
    assert_eq!(compute_barycentric_2d(0, 4 * ONE, &v), (0, 0, ONE));
    assert_eq!(compute_barycentric_2d(8 * ONE, -2 * ONE, &v), (-32768, 131072, -32768));
}

#[test]
fn barycentric_weights_inside_sum_to_one_within_two_units() {
    let v = [Vec3::new(0, 0, 0), Vec3::new(3 * ONE, 0, 0), Vec3::new(0, 3 * ONE, 0)];
    assert_eq!(compute_barycentric_2d(ONE, ONE, &v), (21845, 21845, 21845));
    let w = [Vec3::new(7, 3, 0), Vec3::new(9 * ONE + 11, 2 * ONE, 0), Vec3::new(ONE, 8 * ONE + 5, 0)];
    for x in 0..10 {
        for y in 0..10 {
            let mut t = Triangle::default();
            for i in 0..3 {
                t.set_vertex(i, w[i]).unwrap();
            }
            let (cx, cy) = (x * ONE + HALF, y * ONE + HALF);
            if t.contains(cx, cy) {
                let (a, b, c) = compute_barycentric_2d(cx, cy, &w);
                assert!(0 <= a && a <= ONE && 0 <= b && b <= ONE && 0 <= c && c <= ONE);
                assert!(ONE - 2 <= a + b + c && a + b + c <= ONE);
            }
        }
    }
}

#[test]
fn barycentric_weights_of_a_degenerate_triangle_saturate() {
    let flat = [Vec3::new(0, 0, 0), Vec3::new(ONE, 0, 0), Vec3::new(2 * ONE, 0, 0)];
    assert_eq!(compute_barycentric_2d(ONE, ONE, &flat), (i32::MAX, i32::MIN, i32::MAX));
    assert_eq!(compute_barycentric_2d(ONE, 0, &flat), (0, 0, 0));
    let point = [Vec3::new(0, 0, 0); 3];
    assert_eq!(compute_barycentric_2d(ONE, ONE, &point), (0, 0, 0));
}

#[test]
fn depth_is_interpolated_linearly_where_every_w_is_one() {
    let q = vec![
        Vec4::new(0, 0, 10 * ONE, ONE),
        Vec4::new(0, 0, 20 * ONE, ONE),
        Vec4::new(0, 0, 30 * ONE, ONE),
    ];
    // 0.5 * 10 + 0.25 * 20 + 0.25 * 30 = 17.5
    assert_eq!(interpolate_depth(ONE / 2, ONE / 4, ONE / 4, &q), Some(1146880));
    assert_eq!(interpolate_depth(ONE, 0, 0, &q), Some(10 * ONE));
    assert_eq!(interpolate_depth(0, 0, ONE, &q), Some(30 * ONE));
}

#[test]
fn depth_is_weighted_by_the_reciprocal_of_w() {
    let q = vec![
        Vec4::new(0, 0, 10 * ONE, ONE),
        Vec4::new(0, 0, 20 * ONE, 2 * ONE),
        Vec4::new(0, 0, 30 * ONE, 4 * ONE),
    ];
    // (0.5 * 10 + 0.125 * 20 + 0.0625 * 30) / (0.5 + 0.125 + 0.0625) = 13.6363...
    assert_eq!(interpolate_depth(ONE / 2, ONE / 4, ONE / 4, &q), Some(893672));
    let r = vec![Vec4::new(0, 0, 7, -3 * ONE), Vec4::new(0, 0, -9, 5 * ONE), Vec4::new(0, 0, 100, ONE)];
    assert_eq!(interpolate_depth(21845, 21845, 21846, &r), Some(110));
    let s = vec![Vec4::new(0, 0, ONE, 3 * ONE); 3];
    assert_eq!(interpolate_depth(21845, 21845, 21845, &s), Some(ONE));
}

#[test]
fn there_is_no_depth_where_a_w_is_zero_or_the_weights_cancel() {
    let q = vec![
        Vec4::new(0, 0, 10 * ONE, ONE),
        Vec4::new(0, 0, 20 * ONE, 0),
        Vec4::new(0, 0, 30 * ONE, ONE),
    ];
    assert_eq!(interpolate_depth(ONE, 0, 0, &q), None);
    let r = vec![Vec4::new(0, 0, 10 * ONE, ONE); 3];
    assert_eq!(interpolate_depth(ONE, -ONE, 0, &r), None);
    assert_eq!(interpolate_depth(0, 0, 0, &r), None);
}

#[test]
fn shade_takes_the_first_color_or_blends_all_three() {
    let t = colored(corner());
    assert_eq!(shade(&t, false, ONE / 2, ONE / 4, ONE / 4), Vec3::new(10 * ONE, 20 * ONE, 30 * ONE));
    // 0.5 * 10 + 0.25 * 40 + 0.25 * 70 = 32.5
    assert_eq!(
        shade(&t, true, ONE / 2, ONE / 4, ONE / 4),
        Vec3::new(2129920, 2129920 + 10 * ONE, 2129920 + 20 * ONE)
    );
    assert_eq!(shade(&t, true, 0, ONE, 0), Vec3::new(40 * ONE, 50 * ONE, 60 * ONE));
}

#[test]
fn fill_writes_the_pixels_whose_centers_are_inside() {
    let t = colored(corner());
    let mut c = Canvas::new(6, 6);
    c.rasterize_triangle(&t, false);
    let k = Vec3::new(10 * ONE, 20 * ONE, 30 * ONE);
    let want = vec![
        (0, 0, 901120, k),
        (0, 1, 1228800, k),
        (0, 2, 1556480, k),
        (1, 0, 1064960, k),
        (1, 1, 1392640, k),
        (2, 0, 1228800, k),
    ];
    assert_eq!(written(&c), want);
}

#[test]
fn fill_reaches_the_pixels_that_hold_the_extremes() {
    // A triangle within one pixel, around its center.
    let mut t = Triangle::default();
    t.set_vertex(0, Vec3::new(0, 0, 5)).unwrap();
    t.set_vertex(1, Vec3::new(ONE - 1, 0, 5)).unwrap();
    t.set_vertex(2, Vec3::new(HALF, ONE - 1, 5)).unwrap();
    t.set_color(0, 7, 8, 9).unwrap();
    let mut c = Canvas::new(4, 4);
    c.rasterize_triangle(&t, false);
    assert_eq!(written(&c), vec![(0, 0, 5, Vec3::new(7, 8, 9))]);
}

#[test]
fn fill_writes_every_pixel_whose_center_is_inside_and_no_other() {
    let v = [
        Vec3::new(3, 7, 0),
        Vec3::new(20 * ONE + 64749, 4 * ONE + 64749, 0),
        Vec3::new(10 * ONE + 64946, 13 * ONE + 65011, 0),
    ];
    let t = colored(v);
    let mut c = Canvas::new(24, 16);
    c.rasterize_triangle(&t, false);
    let mut n = 0;
    for x in 0..24 {
        for y in 0..16 {
            let hit = c.depthbuffer()[c.get_index(x, y).unwrap()] != DEPTH_INFINITY;
            assert_eq!(hit, t.contains(x as i32 * ONE + HALF, y as i32 * ONE + HALF));
            if hit {
                n += 1;
            }
        }
    }
    assert!(t.contains(11 * ONE + HALF, 13 * ONE + HALF));
    assert!(n > 50);
}

#[test]
fn fill_blends_vertex_colors_when_asked() {
    let t = colored(corner());
    let mut c = Canvas::new(6, 6);
    c.rasterize_triangle(&t, true);
    let want = vec![
        (0, 0, 901120, Vec3::new(1392640, 2048000, 2703360)),
        (0, 1, 1228800, Vec3::new(2375680, 3031040, 3686400)),
        (0, 2, 1556480, Vec3::new(3358720, 4014080, 4669440)),
        (1, 0, 1064960, Vec3::new(1884160, 2539520, 3194880)),
        (1, 1, 1392640, Vec3::new(2867200, 3522560, 4177920)),
        (2, 0, 1228800, Vec3::new(2375680, 3031040, 3686400)),
    ];
    assert_eq!(written(&c), want);
}

#[test]
fn fill_uses_the_saved_w_of_each_vertex() {
    let mut t = colored(corner());
    t.set_w(1, 2 * ONE).unwrap();
    t.set_w(2, 4 * ONE).unwrap();
    let mut c = Canvas::new(6, 6);
    c.rasterize_triangle(&t, false);
    let depths: Vec<(usize, usize, i64)> = written(&c).iter().map(|e| (e.0, e.1, e.2)).collect();
    let want = vec![
        (0, 0, 752450),
        (0, 1, 905020),
        (0, 2, 1179648),
        (1, 0, 883311),
        (1, 1, 1117967),
        (2, 0, 1069271),
    ];
    assert_eq!(depths, want);
}

#[test]
fn fill_skips_a_triangle_with_a_zero_w() {
    let mut t = colored(corner());
    t.set_w(0, 0).unwrap();
    let mut c = Canvas::new(6, 6);
    c.rasterize_triangle(&t, false);
    assert!(written(&c).is_empty());
}

#[test]
fn fill_of_the_other_winding_or_of_no_area_writes_nothing() {
    let v = corner();
    let mut c = Canvas::new(6, 6);
    c.rasterize_triangle(&colored([v[0], v[2], v[1]]), false);
    c.rasterize_triangle(&colored([v[0], v[0], v[0]]), false);
    c.rasterize_triangle(&colored([v[0], v[1], v[1]]), false);
    assert!(written(&c).is_empty());
}

#[test]
fn wireframe_draws_the_three_edges_in_white() {
    let t = colored(corner());
    let mut c = Canvas::new(6, 6);
    c.rasterize_wireframe(&t);
    let mut got: Vec<(usize, usize)> = written(&c).iter().map(|e| (e.0, e.1)).collect();
    got.sort();
    let mut want = vec![
        (0, 0), (1, 0), (2, 0), (3, 0), (4, 0),
        (0, 1), (0, 2), (0, 3), (0, 4),
        (3, 1), (2, 2), (1, 3),
    ];
    want.sort();
    assert_eq!(got, want);
    for e in written(&c) {
        assert_eq!(e.2, ONE as i64);
        assert_eq!(e.3, Vec3::new(CHANNEL_MAX, CHANNEL_MAX, CHANNEL_MAX));
    }
}

#[test]
fn filled_pixels_yield_to_nearer_ones_already_there() {
    let t = colored(corner());
    let mut c = Canvas::new(6, 6);
    let red = Vec3::new(CHANNEL_MAX, 0, 0);
    c.set_pixel(&rasterizer::canvas::Pixel { x: 1, y: 1, depth: 5 }, &red);
    c.set_pixel(&rasterizer::canvas::Pixel { x: 0, y: 0, depth: 901120 }, &red);
    c.set_pixel(&rasterizer::canvas::Pixel { x: 2, y: 0, depth: 1228801 }, &red);
    c.rasterize_triangle(&t, false);
    let k = Vec3::new(10 * ONE, 20 * ONE, 30 * ONE);
    assert_eq!(c.framebuffer()[c.get_index(1, 1).unwrap()], red);
    assert_eq!(c.framebuffer()[c.get_index(0, 0).unwrap()], red);
    assert_eq!(c.framebuffer()[c.get_index(2, 0).unwrap()], k);
}
