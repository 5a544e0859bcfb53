//! Filled interiors: a scan of every pixel that the bounding box of the
//! triangle touches, which tests each pixel center against the triangle,
//! interpolates a depth from barycentric weights, and writes the pixel
//! through the depth test.

use vstd::prelude::*;
use crate::canvas::{lemma_plot_all_concat, lemma_plot_all_push, Canvas, Fragment, Pixel};
use crate::fixed::{
    clamp,
    diff_product,
    div_trunc,
    divide,
    fx_div_spec,
    ratio,
    saturate,
    pixel_index,
    pixel_of,
    wide_mul,
    HALF,
    ONE,
};
use crate::line::line_fragments;
use crate::triangle::{Triangle, TriangleView};
use crate::vector::{Vec3, Vec4};

verus! {

/// Twice the signed area of the triangle `(x, y), a, b`.
pub open spec fn area2(a: Vec3, b: Vec3, x: int, y: int) -> int {
    x * (a.y - b.y) + (b.x - a.x) * y + a.x * b.y - b.x * a.y
}

/// The barycentric weights of the point `(x, y)` against the triangle `v`,
/// as fixed-point scalars: each is the area the point spans with the
/// opposite edge, over the area the vertex itself spans with it.
pub open spec fn barycentric(v: Seq<Vec3>, x: int, y: int) -> (int, int, int) {
    (
        fx_div_spec(area2(v[1], v[2], x, y), area2(v[1], v[2], v[0].x as int, v[0].y as int)),
        fx_div_spec(area2(v[2], v[0], x, y), area2(v[2], v[0], v[1].x as int, v[1].y as int)),
        fx_div_spec(area2(v[0], v[1], x, y), area2(v[0], v[1], v[2].x as int, v[2].y as int)),
    )
}

/// A barycentric weight divided by a clip-space w, to 32 fractional bits.
pub open spec fn persp_weight(weight: int, w: int) -> int {
    div_trunc(weight * 0x1_0000_0000, w)
}

/// The perspective-correct depth at a point with barycentric weights
/// `(alpha, beta, gamma)`: the depths of the vertices `q`, each weighted by
/// its barycentric weight over its w, over the sum of those weights. There
/// is none where a vertex has zero w or the weights sum to zero.
pub open spec fn interpolated_depth(alpha: int, beta: int, gamma: int, q: Seq<Vec4>) -> Option<
    int,
> {
    let s0 = persp_weight(alpha, q[0].w as int);
    let s1 = persp_weight(beta, q[1].w as int);
    let s2 = persp_weight(gamma, q[2].w as int);
    if q[0].w == 0 || q[1].w == 0 || q[2].w == 0 || s0 + s1 + s2 == 0 {
        None
    } else {
        Some(clamp(div_trunc(s0 * q[0].z + s1 * q[1].z + s2 * q[2].z, s0 + s1 + s2)))
    }
}

/// One channel of a blended color: the three vertex channels weighted by
/// the barycentric weights.
pub open spec fn blend_channel(alpha: int, beta: int, gamma: int, c0: int, c1: int, c2: int) -> int {
    clamp(div_trunc(alpha * c0 + beta * c1 + gamma * c2, ONE as int))
}

/// The color of a fill fragment: the blend of the three vertex colors where
/// `blend` holds, the color of vertex 0 where it does not.
pub open spec fn fill_color(t: TriangleView, blend: bool, alpha: int, beta: int, gamma: int) -> Vec3 {
    if blend {
        Vec3 {
            x: blend_channel(
                alpha,
                beta,
                gamma,
                t.color[0].x as int,
                t.color[1].x as int,
                t.color[2].x as int,
            ) as i32,
            y: blend_channel(
                alpha,
                beta,
                gamma,
                t.color[0].y as int,
                t.color[1].y as int,
                t.color[2].y as int,
            ) as i32,
            z: blend_channel(
                alpha,
                beta,
                gamma,
                t.color[0].z as int,
                t.color[1].z as int,
                t.color[2].z as int,
            ) as i32,
        }
    } else {
        t.color[0]
    }
}

/// The center of pixel `p` along one axis, as a fixed-point coordinate.
pub open spec fn center(p: int) -> int {
    p * ONE + HALF
}

/// The write that the fill makes for pixel `(x, y)`, if any: one where the
/// pixel's center is strictly inside the triangle and a depth exists there.
#[verifier::opaque]
pub open spec fn fragment_at(t: TriangleView, blend: bool, x: int, y: int) -> Option<Fragment> {
    let cx = center(x);
    let cy = center(y);
    let (alpha, beta, gamma) = barycentric(t.v, cx, cy);
    if !t.contains(cx, cy) {
        None
    } else {
        match interpolated_depth(alpha, beta, gamma, t.homogeneous()) {
            None => None,
            Some(z) => Some(
                Fragment {
                    point: Pixel { x: x as i64, y: y as i64, depth: z as i32 },
                    color: fill_color(t, blend, alpha, beta, gamma),
                },
            ),
        }
    }
}

/// The smallest of three.
pub open spec fn min3(a: int, b: int, c: int) -> int {
    if a <= b && a <= c {
        a
    } else if b <= c {
        b
    } else {
        c
    }
}

/// The largest of three.
pub open spec fn max3(a: int, b: int, c: int) -> int {
    if a >= b && a >= c {
        a
    } else if b >= c {
        b
    } else {
        c
    }
}

/// The first pixel column that the bounding box touches.
pub open spec fn box_left(t: TriangleView) -> int {
    pixel_of(min3(t.v[0].x as int, t.v[1].x as int, t.v[2].x as int))
}

/// The last pixel column that the bounding box touches.
pub open spec fn box_right(t: TriangleView) -> int {
    pixel_of(max3(t.v[0].x as int, t.v[1].x as int, t.v[2].x as int))
}

/// The first pixel row that the bounding box touches.
pub open spec fn box_bottom(t: TriangleView) -> int {
    pixel_of(min3(t.v[0].y as int, t.v[1].y as int, t.v[2].y as int))
}

/// The last pixel row that the bounding box touches.
pub open spec fn box_top(t: TriangleView) -> int {
    pixel_of(max3(t.v[0].y as int, t.v[1].y as int, t.v[2].y as int))
}

/// The writes of the fill in column `x`, for the first `rows` rows from
/// `bottom` up.
pub open spec fn column_fragments(
    t: TriangleView,
    blend: bool,
    x: int,
    bottom: int,
    rows: nat,
) -> Seq<Fragment>
    decreases rows,
{
    if rows == 0 {
        Seq::empty()
    } else {
        let below = column_fragments(t, blend, x, bottom, (rows - 1) as nat);
        match fragment_at(t, blend, x, bottom + rows - 1) {
            Some(f) => below.push(f),
            None => below,
        }
    }
}

/// The writes of the fill over the first `cols` columns from `left`
/// rightward, each column over `rows` rows from `bottom` up.
pub open spec fn box_fragments(
    t: TriangleView,
    blend: bool,
    left: int,
    cols: nat,
    bottom: int,
    rows: nat,
) -> Seq<Fragment>
    decreases cols,
{
    if cols == 0 {
        Seq::empty()
    } else {
        box_fragments(t, blend, left, (cols - 1) as nat, bottom, rows) + column_fragments(
            t,
            blend,
            left + cols - 1,
            bottom,
            rows,
        )
    }
}

/// The writes of the fill of `t`, in the order they are made: column by
/// column from the first to the last that the bounding box touches, each
/// column from its first row up to its last.
#[verifier::opaque]
pub open spec fn fill_fragments(t: TriangleView, blend: bool) -> Seq<Fragment> {
    box_fragments(
        t,
        blend,
        box_left(t),
        (box_right(t) - box_left(t) + 1) as nat,
        box_bottom(t),
        (box_top(t) - box_bottom(t) + 1) as nat,
    )
}

/// The writes of the three edges of `t`, in the order they are made: the
/// edges from the third vertex to the first, from the third to the second,
/// and from the second to the first.
#[verifier::opaque]
pub open spec fn wireframe_fragments(t: TriangleView) -> Seq<Fragment> {
    line_fragments(t.v[2], t.v[0]) + line_fragments(t.v[2], t.v[1]) + line_fragments(
        t.v[1],
        t.v[0],
    )
}

/// Twice the signed area of the triangle `(x, y), a, b`.
pub fn area2_value(a: &Vec3, b: &Vec3, x: i32, y: i32) -> (s: i128)
    ensures
        s == area2(*a, *b, x as int, y as int),
        -0x4_0000_0000_0000_0000 <= s <= 0x4_0000_0000_0000_0000,
{
    diff_product(x, 0, a.y, b.y) + diff_product(b.x, a.x, y, 0) + wide_mul(a.x, b.y) as i128
        - wide_mul(b.x, a.y) as i128
}

/// The barycentric weights of the point `(x, y)` against the triangle `v`.
pub fn compute_barycentric_2d(x: i32, y: i32, v: &[Vec3; 3]) -> (c: (i32, i32, i32))
    ensures
        (c.0 as int, c.1 as int, c.2 as int) == barycentric(v@, x as int, y as int),
{
    let c1 = ratio(area2_value(&v[1], &v[2], x, y), area2_value(&v[1], &v[2], v[0].x, v[0].y));
    let c2 = ratio(area2_value(&v[2], &v[0], x, y), area2_value(&v[2], &v[0], v[1].x, v[1].y));
    let c3 = ratio(area2_value(&v[0], &v[1], x, y), area2_value(&v[0], &v[1], v[2].x, v[2].y));
    (c1, c2, c3)
}

/// A barycentric weight over a clip-space w.
fn persp_weight_value(weight: i32, w: i32) -> (p: i128)
    requires
        w != 0,
    ensures
        p == persp_weight(weight as int, w as int),
        -0x8000_0000_0000_0000 <= p <= 0x8000_0000_0000_0000,
{
    divide((weight as i128) * 0x1_0000_0000, w as i128)
}

/// The exact product of a perspective weight and a depth.
fn weighted_depth(p: i128, z: i32) -> (r: i128)
    requires
        -0x8000_0000_0000_0000 <= p <= 0x8000_0000_0000_0000,
    ensures
        r == p * z,
        -0x4000_0000_0000_0000_0000_0000 <= r <= 0x4000_0000_0000_0000_0000_0000,
{
    assert(-0x4000_0000_0000_0000_0000_0000 <= p * z <= 0x4000_0000_0000_0000_0000_0000)
        by (nonlinear_arith)
        requires
            -0x8000_0000_0000_0000 <= p <= 0x8000_0000_0000_0000,
            -0x8000_0000 <= z <= 0x8000_0000,
    ;
    p * (z as i128)
}

/// The perspective-correct depth for the given barycentric weights over the
/// three homogeneous vertices `q`.
pub fn interpolate_depth(alpha: i32, beta: i32, gamma: i32, q: &Vec<Vec4>) -> (z: Option<i32>)
    requires
        q@.len() == 3,
    ensures
        z is Some <==> interpolated_depth(alpha as int, beta as int, gamma as int, q@) is Some,
        z matches Some(d) ==> interpolated_depth(alpha as int, beta as int, gamma as int, q@)
            == Some(d as int),
{
    if q[0].w == 0 || q[1].w == 0 || q[2].w == 0 {
        return None;
    }
    let s0 = persp_weight_value(alpha, q[0].w);
    let s1 = persp_weight_value(beta, q[1].w);
    let s2 = persp_weight_value(gamma, q[2].w);
    let den: i128 = s0 + s1 + s2;
    if den == 0 {
        return None;
    }
    let num: i128 = weighted_depth(s0, q[0].z) + weighted_depth(s1, q[1].z) + weighted_depth(
        s2,
        q[2].z,
    );
    Some(saturate(divide(num, den)))
}

/// One channel of a blended color.
fn blend_channel_value(alpha: i32, beta: i32, gamma: i32, c0: i32, c1: i32, c2: i32) -> (c: i32)
    ensures
        c == blend_channel(
            alpha as int,
            beta as int,
            gamma as int,
            c0 as int,
            c1 as int,
            c2 as int,
        ),
{
    let s: i128 = wide_mul(alpha, c0) as i128 + wide_mul(beta, c1) as i128 + wide_mul(
        gamma,
        c2,
    ) as i128;
    saturate(s / 65536)
}

/// The color of a fill fragment.
pub fn shade(t: &Triangle, blend: bool, alpha: i32, beta: i32, gamma: i32) -> (c: Vec3)
    ensures
        c == fill_color(t@, blend, alpha as int, beta as int, gamma as int),
{
    if blend {
        let col = t.colors();
        Vec3 {
            x: blend_channel_value(alpha, beta, gamma, col[0].x, col[1].x, col[2].x),
            y: blend_channel_value(alpha, beta, gamma, col[0].y, col[1].y, col[2].y),
            z: blend_channel_value(alpha, beta, gamma, col[0].z, col[1].z, col[2].z),
        }
    } else {
        t.get_color()
    }
}

fn smallest(a: i32, b: i32, c: i32) -> (m: i32)
    ensures
        m == min3(a as int, b as int, c as int),
{
    if a <= b && a <= c {
        a
    } else if b <= c {
        b
    } else {
        c
    }
}

fn largest(a: i32, b: i32, c: i32) -> (m: i32)
    ensures
        m == max3(a as int, b as int, c as int),
{
    if a >= b && a >= c {
        a
    } else if b >= c {
        b
    } else {
        c
    }
}

impl Canvas {
    /// Draws the three edges of `t`: each of [`wireframe_fragments`] is
    /// written, in order.
    pub fn rasterize_wireframe(&mut self, t: &Triangle)
        ensures
            final(self)@ == old(self)@.plot_all(wireframe_fragments(t@)),
    {
        reveal(wireframe_fragments);
        let a = *t.a();
        let b = *t.b();
        let c = *t.c();
        self.draw_line(&c, &a);
        self.draw_line(&c, &b);
        self.draw_line(&b, &a);
        proof {
            let l0 = line_fragments(c, a);
            let l1 = line_fragments(c, b);
            let l2 = line_fragments(b, a);
            lemma_plot_all_concat(old(self)@, l0, l1);
            lemma_plot_all_concat(old(self)@, l0 + l1, l2);
        }
    }

    /// Fills the interior of `t`: each of [`fill_fragments`] is written, in
    /// order.
    pub fn rasterize_triangle(&mut self, t: &Triangle, blend: bool)
        ensures
            final(self)@ == old(self)@.plot_all(fill_fragments(t@, blend)),
    {
        reveal(fill_fragments);
        let q = t.to_vector4();
        let a = *t.a();
        let b = *t.b();
        let c = *t.c();
        let left: i64 = pixel_index(smallest(a.x, b.x, c.x)) as i64;
        let right: i64 = pixel_index(largest(a.x, b.x, c.x)) as i64;
        let bottom: i64 = pixel_index(smallest(a.y, b.y, c.y)) as i64;
        let top: i64 = pixel_index(largest(a.y, b.y, c.y)) as i64;
        let ghost rows = (top - bottom + 1) as nat;
        let mut x: i64 = left;
        while x <= right
            invariant
                left <= x <= right + 1,
                bottom <= top,
                -32768 <= left,
                right <= 32767,
                -32768 <= bottom,
                top <= 32767,
                rows == top - bottom + 1,
                q@ == t@.homogeneous(),
                a == t@.v[0],
                b == t@.v[1],
                c == t@.v[2],
                t@.wf(),
                self@ == old(self)@.plot_all(
                    box_fragments(t@, blend, left as int, (x - left) as nat, bottom as int, rows),
                ),
            decreases right + 1 - x,
        {
            let ghost before = self@;
            let ghost done = box_fragments(
                t@,
                blend,
                left as int,
                (x - left) as nat,
                bottom as int,
                rows,
            );
            let mut y: i64 = bottom;
            while y <= top
                invariant
                    left <= x <= right,
                    bottom <= y <= top + 1,
                    -32768 <= left,
                    right <= 32767,
                    -32768 <= bottom,
                    top <= 32767,
                    q@ == t@.homogeneous(),
                    t@.wf(),
                    self@ == before.plot_all(
                        column_fragments(t@, blend, x as int, bottom as int, (y - bottom) as nat),
                    ),
                decreases top + 1 - y,
            {
                let cx: i32 = (x * 65536 + 32768) as i32;
                let cy: i32 = (y * 65536 + 32768) as i32;
                proof {
                    reveal(fragment_at);
                }
                let ghost below = column_fragments(
                    t@,
                    blend,
                    x as int,
                    bottom as int,
                    (y - bottom) as nat,
                );
                if t.contains(cx, cy) {
                    let (alpha, beta, gamma) = compute_barycentric_2d(cx, cy, t.v());
                    match interpolate_depth(alpha, beta, gamma, &q) {
                        Some(z) => {
                            let color = shade(t, blend, alpha, beta, gamma);
                            let point = Pixel { x, y, depth: z };
                            proof {
                                lemma_plot_all_push(before, below, Fragment { point, color });
                            }
                            self.set_pixel(&point, &color);
                        },
                        None => {},
                    }
                }
                y = y + 1;
            }
            proof {
                lemma_plot_all_concat(
                    old(self)@,
                    done,
                    column_fragments(t@, blend, x as int, bottom as int, rows),
                );
            }
            x = x + 1;
        }
    }
}

} // verus!
