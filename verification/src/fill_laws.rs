//! What the fill amounts to: it writes a pixel exactly when the center of
//! the pixel lies strictly inside the triangle and a depth exists there.

use vstd::prelude::*;
use crate::canvas::Fragment;
use crate::fill::{
    area2,
    box_bottom,
    box_fragments,
    box_left,
    box_right,
    box_top,
    center,
    column_fragments,
    fill_fragments,
    fragment_at,
    max3,
    min3,
};
use crate::laws::law_barycentric_areas_sum;
use crate::triangle::{edge, inside, TriangleView};
use crate::vector::Vec3;

verus! {

/// Whether the fill of `t` writes `f` for pixel `(x, y)`.
pub open spec fn fills(t: TriangleView, blend: bool, x: int, y: int, f: Fragment) -> bool {
    fragment_at(t, blend, x, y) == Some(f)
}

/// Three vectors `(a, b)` from a point, whose pairwise cross products all
/// have one sign, surround the point: their first components are neither
/// all nonnegative nor all nonpositive.
proof fn lemma_surrounded(a0: int, a1: int, a2: int, b0: int, b1: int, b2: int)
    requires
        (a1 * b2 - a2 * b1 > 0 && a2 * b0 - a0 * b2 > 0 && a0 * b1 - a1 * b0 > 0) || (a1 * b2 - a2
            * b1 < 0 && a2 * b0 - a0 * b2 < 0 && a0 * b1 - a1 * b0 < 0),
    ensures
        !(a0 >= 0 && a1 >= 0 && a2 >= 0),
        !(a0 <= 0 && a1 <= 0 && a2 <= 0),
{
    let n0 = a1 * b2 - a2 * b1;
    let n1 = a2 * b0 - a0 * b2;
    let n2 = a0 * b1 - a1 * b0;
    assert(n0 * a0 + n1 * a1 + n2 * a2 == 0) by (nonlinear_arith)
        requires
            n0 == a1 * b2 - a2 * b1,
            n1 == a2 * b0 - a0 * b2,
            n2 == a0 * b1 - a1 * b0,
    ;
    if (a0 >= 0 && a1 >= 0 && a2 >= 0) || (a0 <= 0 && a1 <= 0 && a2 <= 0) {
        // Every term of the sum has one sign, so every term is zero.
        assert(n0 * a0 == 0 && n1 * a1 == 0 && n2 * a2 == 0) by (nonlinear_arith)
            requires
                n0 * a0 + n1 * a1 + n2 * a2 == 0,
                (n0 > 0 && n1 > 0 && n2 > 0) || (n0 < 0 && n1 < 0 && n2 < 0),
                (a0 >= 0 && a1 >= 0 && a2 >= 0) || (a0 <= 0 && a1 <= 0 && a2 <= 0),
        ;
        assert(a1 == 0 && a2 == 0) by (nonlinear_arith)
            requires
                n1 * a1 == 0,
                n2 * a2 == 0,
                n1 != 0,
                n2 != 0,
        ;
        assert(a1 * b2 - a2 * b1 == 0) by (nonlinear_arith)
            requires
                a1 == 0,
                a2 == 0,
        ;
    }
}

/// The area that a point spans with an edge is the cross product of the
/// vectors from the point to the ends of the edge.
proof fn lemma_area2_as_cross(ax: int, ay: int, bx: int, by: int, x: int, y: int)
    ensures
        x * (ay - by) + (bx - ax) * y + ax * by - bx * ay == (ax - x) * (by - y) - (bx - x) * (ay
            - y),
{
    assert(x * (ay - by) == x * ay - x * by) by (nonlinear_arith);
    assert((bx - ax) * y == bx * y - ax * y) by (nonlinear_arith);
    assert((ax - x) * (by - y) == ax * by - ax * y - x * by + x * y) by (nonlinear_arith);
    assert((bx - x) * (ay - y) == bx * ay - bx * y - x * ay + x * y) by (nonlinear_arith);
}

/// A point for which the three edge functions of a triangle have one
/// strict sign lies strictly between the extremes of the triangle, along
/// both axes.
pub proof fn law_inside_is_within_the_box(v0: Vec3, v1: Vec3, v2: Vec3, x: int, y: int)
    requires
        inside(v0, v1, v2, x, y) || (edge(v0, v1, x, y) > 0 && edge(v1, v2, x, y) > 0 && edge(
            v2,
            v0,
            x,
            y,
        ) > 0),
    ensures
        min3(v0.x as int, v1.x as int, v2.x as int) < x < max3(
            v0.x as int,
            v1.x as int,
            v2.x as int,
        ),
        min3(v0.y as int, v1.y as int, v2.y as int) < y < max3(
            v0.y as int,
            v1.y as int,
            v2.y as int,
        ),
{
    law_barycentric_areas_sum(v0, v1, v2, x, y);
    let (a0, b0) = (v0.x - x, v0.y - y);
    let (a1, b1) = (v1.x - x, v1.y - y);
    let (a2, b2) = (v2.x - x, v2.y - y);
    lemma_area2_as_cross(v1.x as int, v1.y as int, v2.x as int, v2.y as int, x, y);
    lemma_area2_as_cross(v2.x as int, v2.y as int, v0.x as int, v0.y as int, x, y);
    lemma_area2_as_cross(v0.x as int, v0.y as int, v1.x as int, v1.y as int, x, y);
    assert(area2(v1, v2, x, y) == a1 * b2 - a2 * b1);
    assert(area2(v2, v0, x, y) == a2 * b0 - a0 * b2);
    assert(area2(v0, v1, x, y) == a0 * b1 - a1 * b0);
    lemma_surrounded(a0, a1, a2, b0, b1, b2);
    assert(b1 * a2 - b2 * a1 == -(a1 * b2 - a2 * b1)) by (nonlinear_arith);
    assert(b2 * a0 - b0 * a2 == -(a2 * b0 - a0 * b2)) by (nonlinear_arith);
    assert(b0 * a1 - b1 * a0 == -(a0 * b1 - a1 * b0)) by (nonlinear_arith);
    lemma_surrounded(b0, b1, b2, a0, a1, a2);
}

/// The fill offers every pixel whose center is inside: such a pixel lies
/// in a column and a row that the bounding box touches.
pub proof fn law_box_holds_every_inside_pixel(t: TriangleView, x: int, y: int)
    requires
        t.contains(center(x), center(y)),
    ensures
        box_left(t) <= x <= box_right(t),
        box_bottom(t) <= y <= box_top(t),
{
    law_inside_is_within_the_box(t.v[0], t.v[1], t.v[2], center(x), center(y));
}

/// A column of the fill holds a write exactly when the write is that of
/// one of its pixels.
proof fn lemma_column_holds(
    t: TriangleView,
    blend: bool,
    x: int,
    bottom: int,
    rows: nat,
    f: Fragment,
)
    ensures
        column_fragments(t, blend, x, bottom, rows).contains(f) <==> exists|y: int|
            bottom <= y < bottom + rows && #[trigger] fills(t, blend, x, y, f),
    decreases rows,
{
    let col = column_fragments(t, blend, x, bottom, rows);
    if rows > 0 {
        let below = column_fragments(t, blend, x, bottom, (rows - 1) as nat);
        let last = bottom + rows - 1;
        lemma_column_holds(t, blend, x, bottom, (rows - 1) as nat, f);
        if col.contains(f) {
            let i = choose|i: int| 0 <= i < col.len() && col[i] == f;
            if i < below.len() {
                assert(below[i] == f);
                assert(below.contains(f));
                let y = choose|y: int|
                    bottom <= y < bottom + rows - 1 && #[trigger] fills(t, blend, x, y, f);
                assert(bottom <= y < bottom + rows && fills(t, blend, x, y, f));
            } else {
                assert(fills(t, blend, x, last, f));
            }
        }
        if exists|y: int| bottom <= y < bottom + rows && #[trigger] fills(t, blend, x, y, f) {
            let y = choose|y: int| bottom <= y < bottom + rows && #[trigger] fills(t, blend, x, y, f);
            if y == last {
                assert(col[col.len() - 1] == f);
            } else {
                assert(bottom <= y < bottom + rows - 1 && fills(t, blend, x, y, f));
                assert(below.contains(f));
                let i = choose|i: int| 0 <= i < below.len() && below[i] == f;
                assert(col[i] == f);
            }
        }
    }
}

/// A box of the fill holds a write exactly when the write is that of one
/// of its pixels.
proof fn lemma_box_holds(
    t: TriangleView,
    blend: bool,
    left: int,
    cols: nat,
    bottom: int,
    rows: nat,
    f: Fragment,
)
    ensures
        box_fragments(t, blend, left, cols, bottom, rows).contains(f) <==> exists|x: int, y: int|
            left <= x < left + cols && bottom <= y < bottom + rows && #[trigger] fills(
                t,
                blend,
                x,
                y,
                f,
            ),
    decreases cols,
{
    let all = box_fragments(t, blend, left, cols, bottom, rows);
    if cols > 0 {
        let before = box_fragments(t, blend, left, (cols - 1) as nat, bottom, rows);
        let last = left + cols - 1;
        let col = column_fragments(t, blend, last, bottom, rows);
        lemma_box_holds(t, blend, left, (cols - 1) as nat, bottom, rows, f);
        lemma_column_holds(t, blend, last, bottom, rows, f);
        if all.contains(f) {
            let i = choose|i: int| 0 <= i < all.len() && all[i] == f;
            if i < before.len() {
                assert(before[i] == f);
                assert(before.contains(f));
                let (x, y) = choose|x: int, y: int|
                    left <= x < left + cols - 1 && bottom <= y < bottom + rows && #[trigger] fills(
                        t,
                        blend,
                        x,
                        y,
                        f,
                    );
                assert(left <= x < left + cols && bottom <= y < bottom + rows && fills(
                    t,
                    blend,
                    x,
                    y,
                    f,
                ));
            } else {
                assert(col[i - before.len()] == f);
                assert(col.contains(f));
                let y = choose|y: int|
                    bottom <= y < bottom + rows && #[trigger] fills(t, blend, last, y, f);
                assert(left <= last < left + cols && bottom <= y < bottom + rows && fills(
                    t,
                    blend,
                    last,
                    y,
                    f,
                ));
            }
        }
        if exists|x: int, y: int|
            left <= x < left + cols && bottom <= y < bottom + rows && #[trigger] fills(
                t,
                blend,
                x,
                y,
                f,
            ) {
            let (x, y) = choose|x: int, y: int|
                left <= x < left + cols && bottom <= y < bottom + rows && #[trigger] fills(
                    t,
                    blend,
                    x,
                    y,
                    f,
                );
            if x == last {
                assert(bottom <= y < bottom + rows && fills(t, blend, last, y, f));
                assert(col.contains(f));
                let i = choose|i: int| 0 <= i < col.len() && col[i] == f;
                assert(all[before.len() + i] == f);
            } else {
                assert(left <= x < left + cols - 1 && bottom <= y < bottom + rows && fills(
                    t,
                    blend,
                    x,
                    y,
                    f,
                ));
                assert(before.contains(f));
                let i = choose|i: int| 0 <= i < before.len() && before[i] == f;
                assert(all[i] == f);
            }
        }
    }
}

/// The fill writes exactly the pixels whose centers are inside: a write
/// is among those of the fill if and only if it is the write of some
/// pixel, and a pixel has a write if and only if its center lies strictly
/// inside the triangle and a depth exists there.
pub proof fn law_fill_writes_exactly_the_inside_pixels(t: TriangleView, blend: bool, f: Fragment)
    ensures
        fill_fragments(t, blend).contains(f) <==> exists|x: int, y: int|
            #[trigger] fills(t, blend, x, y, f),
        forall|x: int, y: int| #[trigger]
            fills(t, blend, x, y, f) ==> t.contains(center(x), center(y)) && f.point.x == x
                && f.point.y == y,
{
    reveal(fill_fragments);
    reveal(fragment_at);
    let left = box_left(t);
    let bottom = box_bottom(t);
    let cols = (box_right(t) - box_left(t) + 1) as nat;
    let rows = (box_top(t) - box_bottom(t) + 1) as nat;
    lemma_box_holds(t, blend, left, cols, bottom, rows, f);
    assert forall|x: int, y: int| #[trigger] fills(t, blend, x, y, f) implies t.contains(
        center(x),
        center(y),
    ) && f.point.x == x && f.point.y == y && left <= x < left + cols && bottom <= y < bottom
        + rows by {
        law_box_holds_every_inside_pixel(t, x, y);
    }
    if exists|x: int, y: int| #[trigger] fills(t, blend, x, y, f) {
        let (x, y) = choose|x: int, y: int| #[trigger] fills(t, blend, x, y, f);
        assert(left <= x < left + cols && bottom <= y < bottom + rows && fills(t, blend, x, y, f));
    }
}

} // verus!
