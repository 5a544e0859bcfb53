//! The depth test between whole triangles: of two triangles that cover a
//! pixel, the nearer one colors it, whichever is drawn first.

use vstd::prelude::*;
use crate::canvas::{lemma_index_in_bounds, Fragment, Surface, DEPTH_INFINITY};
use crate::depth_laws::{
    hits,
    law_cell_holds_the_nearest_write,
    law_first_batch_wins_ties,
    law_nearer_batch_wins,
    nearest,
    shown,
};
use crate::fill::{center, fill_fragments, fragment_at, wireframe_fragments};
use crate::fill_laws::{fills, law_fill_writes_exactly_the_inside_pixels};
use crate::triangle::TriangleView;
use crate::vector::Vec3;

verus! {

/// Whether none of the writes of `frags` falls on cell `i`.
pub open spec fn misses(width: nat, height: nat, frags: Seq<Fragment>, i: int) -> bool {
    forall|k: int| 0 <= k < frags.len() ==> !hits(width, height, #[trigger] frags[k], i)
}

/// The writes of a triangle drawn with its interior: the wireframe, then
/// the fill.
pub open spec fn filled_fragments(t: TriangleView, blend: bool) -> Seq<Fragment> {
    wireframe_fragments(t) + fill_fragments(t, blend)
}

/// Where every write of a sequence that falls on a cell is one and the same
/// write, and there is one, the cell ends as deep as that write and, if it
/// was deeper before, in its color.
proof fn lemma_one_write_per_cell(
    width: nat,
    height: nat,
    frags: Seq<Fragment>,
    i: int,
    f: Fragment,
    under: Vec3,
    start: int,
)
    requires
        forall|k: int|
            0 <= k < frags.len() && hits(width, height, #[trigger] frags[k], i) ==> frags[k] == f,
        start <= DEPTH_INFINITY,
    ensures
        misses(width, height, frags, i) ==> nearest(width, height, frags, i, start) == start
            && shown(width, height, frags, i, under, start) == under,
        !misses(width, height, frags, i) && f.point.depth < start ==> nearest(
            width,
            height,
            frags,
            i,
            start,
        ) == f.point.depth && shown(width, height, frags, i, under, start) == f.color,
    decreases frags.len(),
{
    if frags.len() > 0 {
        let init = frags.drop_last();
        assert forall|k: int| 0 <= k < init.len() && hits(width, height, #[trigger] init[k], i)
            implies init[k] == f by {
            assert(init[k] == frags[k]);
        }
        lemma_one_write_per_cell(width, height, init, i, f, under, start);
        if misses(width, height, frags, i) {
            assert forall|k: int| 0 <= k < init.len() implies !hits(
                width,
                height,
                #[trigger] init[k],
                i,
            ) by {
                assert(init[k] == frags[k]);
            }
            assert(!hits(width, height, frags[frags.len() - 1], i));
        } else {
            let k = choose|k: int| 0 <= k < frags.len() && hits(width, height, frags[k], i);
            if k < init.len() {
                assert(init[k] == frags[k]);
                assert(!misses(width, height, init, i));
            }
            if hits(width, height, frags.last(), i) {
                assert(frags[frags.len() - 1] == f);
            }
            if misses(width, height, init, i) {
                assert(k == frags.len() - 1);
            }
        }
    }
}

/// Two pixels of a surface that share a cell are one pixel.
proof fn lemma_cells_are_distinct(s: Surface, x: int, y: int, u: int, v: int)
    requires
        s.in_range(x, y),
        s.in_range(u, v),
        s.index_of(x, y) == s.index_of(u, v),
    ensures
        x == u,
        y == v,
{
    let w = s.width as int;
    let h = s.height as int;
    assert(y == v) by (nonlinear_arith)
        requires
            (h - y - 1) * w + x == (h - v - 1) * w + u,
            0 <= x < w,
            0 <= u < w,
    ;
}

/// The writes of a triangle on a pixel that none of its edges passes are
/// the one write of its fill there: the cell of the pixel ends as deep as
/// that write and, if it was deeper before, in its color.
pub proof fn law_triangle_writes_its_pixel_once(
    s: Surface,
    t: TriangleView,
    blend: bool,
    x: int,
    y: int,
    f: Fragment,
)
    requires
        s.wf(),
        s.depth_test,
        s.in_range(x, y),
        fragment_at(t, blend, x, y) == Some(f),
        misses(s.width, s.height, wireframe_fragments(t), s.index_of(x, y)),
    ensures
        nearest(
            s.width,
            s.height,
            filled_fragments(t, blend),
            s.index_of(x, y),
            DEPTH_INFINITY as int,
        ) == f.point.depth,
        f.point.depth < s.depth[s.index_of(x, y)] ==> s.plot_all(
            filled_fragments(t, blend),
        ).frame[s.index_of(x, y)] == f.color && s.plot_all(
            filled_fragments(t, blend),
        ).depth[s.index_of(x, y)] == f.point.depth,
{
    let (w, h) = (s.width, s.height);
    let i = s.index_of(x, y);
    let wire = wireframe_fragments(t);
    let fill = fill_fragments(t, blend);
    let all = filled_fragments(t, blend);
    lemma_index_in_bounds(s, x, y);
    law_fill_writes_exactly_the_inside_pixels(t, blend, f);
    assert(fills(t, blend, x, y, f));
    assert(fill.contains(f));
    let at = choose|k: int| 0 <= k < fill.len() && fill[k] == f;
    assert(all[wire.len() + at] == f);
    assert(hits(w, h, all[wire.len() + at], i));
    assert forall|k: int| 0 <= k < all.len() && hits(w, h, #[trigger] all[k], i) implies all[k]
        == f by {
        if k < wire.len() {
            assert(all[k] == wire[k]);
        } else {
            let g = all[k];
            assert(g == fill[k - wire.len()]);
            assert(fill.contains(g));
            law_fill_writes_exactly_the_inside_pixels(t, blend, g);
            let (u, v) = choose|u: int, v: int| #[trigger] fills(t, blend, u, v, g);
            assert(fills(t, blend, u, v, g));
            assert(g.point.x == u && g.point.y == v);
            lemma_cells_are_distinct(s, x, y, u, v);
        }
    }
    lemma_one_write_per_cell(w, h, all, i, f, s.frame[i], DEPTH_INFINITY as int);
    lemma_one_write_per_cell(w, h, all, i, f, s.frame[i], s.depth[i] as int);
    law_cell_holds_the_nearest_write(s, all, i);
}

/// Writes leave every cell that none of them falls on as it was.
pub proof fn law_missed_cell_is_unchanged(s: Surface, frags: Seq<Fragment>, j: int)
    requires
        s.wf(),
        0 <= j < s.width * s.height,
        misses(s.width, s.height, frags, j),
    ensures
        s.plot_all(frags).frame[j] == s.frame[j],
        s.plot_all(frags).depth[j] == s.depth[j],
    decreases frags.len(),
{
    if frags.len() > 0 {
        let init = frags.drop_last();
        assert forall|k: int| 0 <= k < init.len() implies !hits(
            s.width,
            s.height,
            #[trigger] init[k],
            j,
        ) by {
            assert(init[k] == frags[k]);
        }
        law_missed_cell_is_unchanged(s, init, j);
        crate::laws::law_writes_keep_surface_wf(s, init);
        let prev = s.plot_all(init);
        let p = frags.last().point;
        assert(!hits(s.width, s.height, frags[frags.len() - 1], j));
        if prev.in_range(p.x as int, p.y as int) {
            lemma_index_in_bounds(prev, p.x as int, p.y as int);
        }
    }
}

/// A triangle is drawn within its footprint: a pixel whose center is not
/// strictly inside the triangle, and on which no pixel of its three edge
/// lines falls, is left as it was.
pub proof fn law_triangle_touches_only_its_footprint(
    s: Surface,
    t: TriangleView,
    blend: bool,
    x: int,
    y: int,
)
    requires
        s.wf(),
        s.in_range(x, y),
        !t.contains(center(x), center(y)),
        misses(s.width, s.height, wireframe_fragments(t), s.index_of(x, y)),
    ensures
        s.plot_all(filled_fragments(t, blend)).frame[s.index_of(x, y)] == s.frame[s.index_of(
            x,
            y,
        )],
        s.plot_all(filled_fragments(t, blend)).depth[s.index_of(x, y)] == s.depth[s.index_of(
            x,
            y,
        )],
{
    let (w, h) = (s.width, s.height);
    let i = s.index_of(x, y);
    let wire = wireframe_fragments(t);
    let fill = fill_fragments(t, blend);
    let all = filled_fragments(t, blend);
    lemma_index_in_bounds(s, x, y);
    assert forall|k: int| 0 <= k < all.len() implies !hits(w, h, #[trigger] all[k], i) by {
        if k < wire.len() {
            assert(all[k] == wire[k]);
        } else {
            let g = all[k];
            assert(g == fill[k - wire.len()]);
            assert(fill.contains(g));
            law_fill_writes_exactly_the_inside_pixels(t, blend, g);
            let (u, v) = choose|u: int, v: int| #[trigger] fills(t, blend, u, v, g);
            assert(fills(t, blend, u, v, g));
            if hits(w, h, g, i) {
                lemma_cells_are_distinct(s, x, y, u, v);
            }
        }
    }
    law_missed_cell_is_unchanged(s, all, i);
}

/// Depth decides between two triangles: where both cover a pixel that no
/// edge of either passes, and the pixel was deeper than both, the pixel
/// ends in the color and at the depth that the nearer triangle has there,
/// whichever of the two is drawn first. Where the two are equally deep
/// there, the pixel ends in the color of the one drawn first.
pub proof fn law_nearer_triangle_wins(
    s: Surface,
    a: TriangleView,
    b: TriangleView,
    blend: bool,
    x: int,
    y: int,
    fa: Fragment,
    fb: Fragment,
)
    requires
        s.wf(),
        s.depth_test,
        s.in_range(x, y),
        fragment_at(a, blend, x, y) == Some(fa),
        fragment_at(b, blend, x, y) == Some(fb),
        misses(s.width, s.height, wireframe_fragments(a), s.index_of(x, y)),
        misses(s.width, s.height, wireframe_fragments(b), s.index_of(x, y)),
        fa.point.depth <= fb.point.depth,
        fb.point.depth < s.depth[s.index_of(x, y)],
    ensures
        ({
            let i = s.index_of(x, y);
            let first = s.plot_all(filled_fragments(a, blend) + filled_fragments(b, blend));
            let second = s.plot_all(filled_fragments(b, blend) + filled_fragments(a, blend));
            &&& first.frame[i] == fa.color
            &&& first.depth[i] == fa.point.depth
            &&& second.depth[i] == fa.point.depth
            &&& fa.point.depth < fb.point.depth ==> second.frame[i] == fa.color
            &&& fa.point.depth == fb.point.depth ==> second.frame[i] == fb.color
        }),
{
    let i = s.index_of(x, y);
    let all_a = filled_fragments(a, blend);
    let all_b = filled_fragments(b, blend);
    lemma_index_in_bounds(s, x, y);
    law_triangle_writes_its_pixel_once(s, a, blend, x, y, fa);
    law_triangle_writes_its_pixel_once(s, b, blend, x, y, fb);
    law_first_batch_wins_ties(s, all_a, all_b, i);
    if fa.point.depth < fb.point.depth {
        law_nearer_batch_wins(s, all_a, all_b, i);
        law_cell_holds_the_nearest_write(s, all_b + all_a, i);
        crate::depth_laws::law_depth_buffer_is_order_independent(s, all_a, all_b);
    } else {
        law_first_batch_wins_ties(s, all_b, all_a, i);
    }
}

} // verus!
