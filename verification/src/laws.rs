//! Properties of the rasterizer that hold of every input, stated over the
//! models that the contracts of the library speak of.

use vstd::prelude::*;
use vstd::arithmetic::div_mod::{lemma_fundamental_div_mod, lemma_fundamental_div_mod_converse};
use crate::buffers::Buffers;
use crate::canvas::{lemma_index_in_bounds, Fragment, Surface, DEPTH_INFINITY};
use crate::fill::{area2, barycentric};
use crate::fixed::{whole, ONE};
use crate::line::{
    magnitude,
    line_count,
    line_fragments,
    line_start,
    line_stop,
    lemma_line_count,
    major_extent,
    minor_extent,
    x_major,
};
use crate::store::{Load, StoreView};
use crate::triangle::{edge, inside};
use crate::vector::Vec3;

verus! {

/// After a sequence of loads the counter has moved on by their number.
proof fn lemma_load_all_next_id(s: StoreView, loads: Seq<Load>)
    ensures
        s.load_all(loads).next_id == s.next_id + loads.len(),
    decreases loads.len(),
{
    if loads.len() > 0 {
        lemma_load_all_next_id(s, loads.drop_last());
    }
}

/// Handles are unique: of any sequence of loads, whatever their kinds, a
/// later load is issued a strictly greater id than an earlier one, so no
/// two loads are issued the same id.
pub proof fn law_handle_ids_increase(s: StoreView, loads: Seq<Load>, i: int, j: int)
    requires
        0 <= i < j < loads.len(),
    ensures
        s.issued(loads, i) < s.issued(loads, j),
        s.issued(loads, i) == s.next_id + i,
{
    lemma_load_all_next_id(s, loads.take(i));
    lemma_load_all_next_id(s, loads.take(j));
}

/// A load never touches a buffer that was loaded before it: every id in
/// use keeps its buffer, the id issued is one that was not in use, and the
/// store stays well-formed.
pub proof fn law_load_keeps_buffers(s: StoreView, l: Load)
    requires
        s.wf(),
    ensures
        s.load(l).wf(),
        !s.positions.contains_key(s.next_id),
        !s.indices.contains_key(s.next_id),
        !s.colors.contains_key(s.next_id),
        forall|k: nat|
            s.positions.contains_key(k) ==> s.load(l).positions.contains_key(k) && s.load(
                l,
            ).positions[k] == s.positions[k],
        forall|k: nat|
            s.indices.contains_key(k) ==> s.load(l).indices.contains_key(k) && s.load(l).indices[k]
                == s.indices[k],
        forall|k: nat|
            s.colors.contains_key(k) ==> s.load(l).colors.contains_key(k) && s.load(l).colors[k]
                == s.colors[k],
{
}

/// Every store that loads alone have built is well-formed.
pub proof fn law_loads_keep_store_wf(loads: Seq<Load>)
    ensures
        StoreView::empty().load_all(loads).wf(),
    decreases loads.len(),
{
    if loads.len() > 0 {
        law_loads_keep_store_wf(loads.drop_last());
        law_load_keeps_buffers(StoreView::empty().load_all(loads.drop_last()), loads.last());
    }
}

/// Containment is strict: a point on the line through any edge of a
/// triangle is outside it.
pub proof fn law_edge_points_are_outside(v0: Vec3, v1: Vec3, v2: Vec3, x: int, y: int)
    requires
        edge(v0, v1, x, y) == 0 || edge(v1, v2, x, y) == 0 || edge(v2, v0, x, y) == 0,
    ensures
        !inside(v0, v1, v2, x, y),
{
}

/// The depth test decides alone: of two writes to one pixel that is deeper
/// than both, the one with the smaller depth gives the pixel its color and
/// its depth, in whichever order the two are made.
pub proof fn law_nearer_write_wins(s: Surface, near: Fragment, far: Fragment)
    requires
        s.wf(),
        s.depth_test,
        s.in_range(near.point.x as int, near.point.y as int),
        far.point.x == near.point.x,
        far.point.y == near.point.y,
        near.point.depth < far.point.depth,
        s.depth[s.index_of(near.point.x as int, near.point.y as int)] > far.point.depth,
    ensures
        ({
            let i = s.index_of(near.point.x as int, near.point.y as int);
            let one = s.plot(near.point, near.color).plot(far.point, far.color);
            let other = s.plot(far.point, far.color).plot(near.point, near.color);
            &&& one.frame[i] == near.color
            &&& other.frame[i] == near.color
            &&& one.depth[i] == near.point.depth
            &&& other.depth[i] == near.point.depth
        }),
{
    lemma_index_in_bounds(s, near.point.x as int, near.point.y as int);
}

/// The first writer wins a tie: of two writes of equal depth to one pixel
/// that is deeper than they are, the first gives the pixel its color.
pub proof fn law_first_write_wins_ties(s: Surface, first: Fragment, second: Fragment)
    requires
        s.wf(),
        s.depth_test,
        s.in_range(first.point.x as int, first.point.y as int),
        second.point.x == first.point.x,
        second.point.y == first.point.y,
        second.point.depth == first.point.depth,
        s.depth[s.index_of(first.point.x as int, first.point.y as int)] > first.point.depth,
    ensures
        ({
            let i = s.index_of(first.point.x as int, first.point.y as int);
            s.plot(first.point, first.color).plot(second.point, second.color).frame[i]
                == first.color
        }),
{
    lemma_index_in_bounds(s, first.point.x as int, first.point.y as int);
}

/// Pixel writes keep a surface well-formed: both buffers go on holding
/// one cell per pixel.
pub proof fn law_writes_keep_surface_wf(s: Surface, frags: Seq<Fragment>)
    requires
        s.wf(),
    ensures
        s.plot_all(frags).wf(),
        s.plot_all(frags).width == s.width,
        s.plot_all(frags).height == s.height,
    decreases frags.len(),
{
    if frags.len() > 0 {
        law_writes_keep_surface_wf(s, frags.drop_last());
        let prev = s.plot_all(frags.drop_last());
        let p = frags.last().point;
        if prev.in_range(p.x as int, p.y as int) {
            lemma_index_in_bounds(prev, p.x as int, p.y as int);
        }
    }
}

/// A pixel write never makes a cell deeper, and leaves every cell but its
/// own as it was.
pub proof fn law_write_touches_one_cell(s: Surface, f: Fragment, j: int)
    requires
        s.wf(),
        0 <= j < s.width * s.height,
    ensures
        s.plot(f.point, f.color).depth[j] <= s.depth[j],
        !(s.in_range(f.point.x as int, f.point.y as int) && j == s.index_of(
            f.point.x as int,
            f.point.y as int,
        )) ==> s.plot(f.point, f.color).frame[j] == s.frame[j] && s.plot(f.point, f.color).depth[j]
            == s.depth[j],
{
    if s.in_range(f.point.x as int, f.point.y as int) {
        lemma_index_in_bounds(s, f.point.x as int, f.point.y as int);
    }
}

/// After a clear of both buffers every frame cell is black and every depth
/// cell is infinitely deep, whatever was drawn before.
pub proof fn law_clear_resets_every_cell(s: Surface, j: int)
    requires
        s.wf(),
        0 <= j < s.width * s.height,
    ensures
        s.cleared(Buffers { color: true, depth: true }).frame[j] == Vec3::zero(),
        s.cleared(Buffers { color: true, depth: true }).depth[j] == DEPTH_INFINITY,
        s.cleared(Buffers { color: true, depth: true }).wf(),
{
}

/// Whether both coordinates of `v` are whole numbers of pixels.
pub open spec fn pixel_aligned(v: Vec3) -> bool {
    v.x as int % (ONE as int) == 0 && v.y as int % (ONE as int) == 0
}

/// A line starts on the pixel of the endpoint it is walked from, and ends
/// in the column (for a line that steps along x) or the row (for one that
/// steps along y) of its other endpoint.
pub proof fn law_line_spans_its_extent(begin: Vec3, end: Vec3)
    ensures
        ({
            let frags = line_fragments(begin, end);
            let s = line_start(begin, end);
            let t = line_stop(begin, end);
            &&& frags.len() >= 1
            &&& frags[0].point.x == whole(s.x as int)
            &&& frags[0].point.y == whole(s.y as int)
            &&& x_major(begin, end) ==> frags.last().point.x == whole(t.x as int)
            &&& !x_major(begin, end) ==> frags.last().point.y == whole(t.y as int)
        }),
{
    lemma_line_count(begin, end);
    let major = major_extent(begin, end);
    let minor = minor_extent(begin, end);
    if major > 0 {
        assert(2 * 0 * minor + major == 0 * (2 * major) + major) by (nonlinear_arith);
        lemma_fundamental_div_mod_converse(2 * 0 * minor + major, 2 * major, 0, major);
    }
}

/// A line between two pixel-aligned endpoints includes both: its first
/// pixel is that of one endpoint and its last is that of the other.
pub proof fn law_line_includes_both_endpoints(begin: Vec3, end: Vec3)
    requires
        pixel_aligned(begin),
        pixel_aligned(end),
    ensures
        ({
            let frags = line_fragments(begin, end);
            let s = line_start(begin, end);
            let t = line_stop(begin, end);
            &&& frags[0].point.x == whole(s.x as int)
            &&& frags[0].point.y == whole(s.y as int)
            &&& frags.last().point.x == whole(t.x as int)
            &&& frags.last().point.y == whole(t.y as int)
        }),
{
    law_line_spans_its_extent(begin, end);
    lemma_line_count(begin, end);
    let s = line_start(begin, end);
    let t = line_stop(begin, end);
    let major = major_extent(begin, end);
    let minor = minor_extent(begin, end);
    let n = line_count(begin, end);
    let one = ONE as int;
    // Extents of aligned endpoints are whole numbers of pixels.
    let m = if x_major(begin, end) {
        if t.y >= s.y {
            whole(t.y as int) - whole(s.y as int)
        } else {
            whole(s.y as int) - whole(t.y as int)
        }
    } else {
        if t.x >= s.x {
            whole(t.x as int) - whole(s.x as int)
        } else {
            whole(s.x as int) - whole(t.x as int)
        }
    };
    assert(major == n * one);
    assert(minor == m * one);
    if major > 0 {
        assert(2 * n * minor + major == m * (2 * major) + major) by (nonlinear_arith)
            requires
                major == n * one,
                minor == m * one,
        ;
        lemma_fundamental_div_mod_converse(2 * n * minor + major, 2 * major, m, major);
    }
}

/// A line between two pixel-aligned endpoints stays in their box: each of
/// its pixels lies between the pixels of the two endpoints, along both
/// axes.
pub proof fn law_aligned_line_stays_in_its_box(begin: Vec3, end: Vec3, k: int)
    requires
        pixel_aligned(begin),
        pixel_aligned(end),
        0 <= k <= line_count(begin, end),
    ensures
        ({
            let p = line_fragments(begin, end)[k].point;
            let (bx, by) = (whole(begin.x as int), whole(begin.y as int));
            let (ex, ey) = (whole(end.x as int), whole(end.y as int));
            &&& bx <= p.x <= ex || ex <= p.x <= bx
            &&& by <= p.y <= ey || ey <= p.y <= by
        }),
{
    lemma_line_count(begin, end);
    let s = line_start(begin, end);
    let t = line_stop(begin, end);
    let major = major_extent(begin, end);
    let minor = minor_extent(begin, end);
    let n = line_count(begin, end);
    let one = ONE as int;
    let m = if x_major(begin, end) {
        magnitude(whole(t.y as int) - whole(s.y as int))
    } else {
        magnitude(whole(t.x as int) - whole(s.x as int))
    };
    assert(major == n * one);
    assert(minor == m * one);
    if major > 0 {
        let top = 2 * k * minor + major;
        let q = top / (2 * major);
        lemma_fundamental_div_mod(top, 2 * major);
        assert(0 <= top % (2 * major) < 2 * major) by (nonlinear_arith)
            requires
                major > 0,
        ;
        assert(0 <= q <= m) by (nonlinear_arith)
            requires
                top == (2 * major) * q + top % (2 * major),
                0 <= top % (2 * major) < 2 * major,
                top == 2 * k * minor + major,
                major == n * one,
                minor == m * one,
                0 <= k <= n,
                0 <= m,
                n > 0,
                one == 65536,
        ;
    }
}

/// The area function written out as a sum of products of one x and one y.
proof fn lemma_area2_expand(ax: int, ay: int, bx: int, by: int, x: int, y: int)
    ensures
        x * (ay - by) + (bx - ax) * y + ax * by - bx * ay == x * ay - x * by + bx * y - ax * y + ax
            * by - bx * ay,
{
    assert(x * (ay - by) == x * ay - x * by) by (nonlinear_arith);
    assert((bx - ax) * y == bx * y - ax * y) by (nonlinear_arith);
}

/// The edge function written out as a sum of products of one x and one y.
proof fn lemma_edge_expand(ax: int, ay: int, bx: int, by: int, x: int, y: int)
    ensures
        (ax - bx) * (y - by) - (ay - by) * (x - bx) == ax * y - ax * by - bx * y + x * by - x * ay
            + bx * ay,
{
    assert((ax - bx) * (y - by) == ax * y - ax * by - bx * y + bx * by) by (nonlinear_arith);
    assert((ay - by) * (x - bx) == x * ay - bx * ay - x * by + bx * by) by (nonlinear_arith);
}

/// The three areas that a point spans with the edges of a triangle add up
/// to the area of the triangle, and each vertex spans that same area with
/// its opposite edge: in exact arithmetic the barycentric weights sum to
/// one. Each area is the edge function of its edge, negated.
pub proof fn law_barycentric_areas_sum(v0: Vec3, v1: Vec3, v2: Vec3, x: int, y: int)
    ensures
        area2(v1, v2, x, y) + area2(v2, v0, x, y) + area2(v0, v1, x, y) == area2(
            v1,
            v2,
            v0.x as int,
            v0.y as int,
        ),
        area2(v2, v0, v1.x as int, v1.y as int) == area2(v1, v2, v0.x as int, v0.y as int),
        area2(v0, v1, v2.x as int, v2.y as int) == area2(v1, v2, v0.x as int, v0.y as int),
        area2(v1, v2, x, y) == -edge(v1, v2, x, y),
        area2(v2, v0, x, y) == -edge(v2, v0, x, y),
        area2(v0, v1, x, y) == -edge(v0, v1, x, y),
{
    let (x0, y0) = (v0.x as int, v0.y as int);
    let (x1, y1) = (v1.x as int, v1.y as int);
    let (x2, y2) = (v2.x as int, v2.y as int);
    lemma_area2_expand(x1, y1, x2, y2, x, y);
    lemma_area2_expand(x2, y2, x0, y0, x, y);
    lemma_area2_expand(x0, y0, x1, y1, x, y);
    lemma_area2_expand(x1, y1, x2, y2, x0, y0);
    lemma_area2_expand(x2, y2, x0, y0, x1, y1);
    lemma_area2_expand(x0, y0, x1, y1, x2, y2);
    lemma_edge_expand(x1, y1, x2, y2, x, y);
    lemma_edge_expand(x2, y2, x0, y0, x, y);
    lemma_edge_expand(x0, y0, x1, y1, x, y);
}

/// One weight of a point inside: the quotient of a part by the whole, both
/// of one sign, with its remainder.
proof fn lemma_weight(n: int, d: int) -> (qr: (int, int))
    requires
        0 < n <= d || d <= n < 0,
    ensures
        crate::fixed::fx_div_spec(n, d) == qr.0,
        magnitude(n) * ONE == qr.0 * magnitude(d) + qr.1,
        0 <= qr.1 < magnitude(d),
        0 <= qr.0 <= ONE,
{
    let one = ONE as int;
    let m = magnitude(n);
    let e = magnitude(d);
    let q = (m * one) / e;
    let r = (m * one) % e;
    lemma_fundamental_div_mod(m * one, e);
    assert(0 <= r < e) by (nonlinear_arith)
        requires
            r == (m * one) % e,
            e > 0,
    ;
    assert(q * e == e * q) by (nonlinear_arith);
    assert(0 <= q <= one) by (nonlinear_arith)
        requires
            m * one == e * q + r,
            0 <= r < e,
            0 < m <= e,
            one == 65536,
    ;
    (q, r)
}

/// The barycentric weights of a point strictly inside a triangle, of
/// either winding, each lie between zero and one, and sum to one within
/// two units of the last fractional bit.
pub proof fn law_barycentric_weights_sum_to_one(v: Seq<Vec3>, x: int, y: int)
    requires
        v.len() == 3,
        inside(v[0], v[1], v[2], x, y) || (edge(v[0], v[1], x, y) > 0 && edge(v[1], v[2], x, y) > 0
            && edge(v[2], v[0], x, y) > 0),
    ensures
        ({
            let (alpha, beta, gamma) = barycentric(v, x, y);
            &&& 0 <= alpha <= ONE
            &&& 0 <= beta <= ONE
            &&& 0 <= gamma <= ONE
            &&& ONE - 2 <= alpha + beta + gamma <= ONE
        }),
{
    law_barycentric_areas_sum(v[0], v[1], v[2], x, y);
    let n0 = area2(v[1], v[2], x, y);
    let n1 = area2(v[2], v[0], x, y);
    let n2 = area2(v[0], v[1], x, y);
    let d = area2(v[1], v[2], v[0].x as int, v[0].y as int);
    let (q0, r0) = lemma_weight(n0, d);
    let (q1, r1) = lemma_weight(n1, d);
    let (q2, r2) = lemma_weight(n2, d);
    let one = ONE as int;
    let (m0, m1, m2, e) = (magnitude(n0), magnitude(n1), magnitude(n2), magnitude(d));
    assert(ONE - 2 <= q0 + q1 + q2 <= ONE) by (nonlinear_arith)
        requires
            m0 * one == q0 * e + r0,
            m1 * one == q1 * e + r1,
            m2 * one == q2 * e + r2,
            m0 + m1 + m2 == e,
            0 <= r0 < e,
            0 <= r1 < e,
            0 <= r2 < e,
            e > 0,
            one == 65536,
    ;
}

} // verus!
