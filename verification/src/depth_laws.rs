//! What the depth test amounts to over whole sequences of pixel writes:
//! each cell ends up as deep as the nearest write that hit it, in the color
//! of the first write that was that near.

use vstd::prelude::*;
use crate::canvas::{
    lemma_index_in_bounds,
    lemma_plot_all_concat,
    lemma_plot_all_size,
    Fragment,
    Surface,
    DEPTH_INFINITY,
};
use crate::vector::Vec3;

verus! {

/// Whether the write `f` falls on cell `i` of a surface of `width` by
/// `height` pixels.
pub open spec fn hits(width: nat, height: nat, f: Fragment, i: int) -> bool {
    &&& 0 <= f.point.x < width
    &&& 0 <= f.point.y < height
    &&& (height - f.point.y - 1) * width + f.point.x == i
}

/// The smallest depth among `start` and the writes of `frags` that fall on
/// cell `i`.
pub open spec fn nearest(width: nat, height: nat, frags: Seq<Fragment>, i: int, start: int) -> int
    decreases frags.len(),
{
    if frags.len() == 0 {
        start
    } else {
        let d = nearest(width, height, frags.drop_last(), i, start);
        if hits(width, height, frags.last(), i) && frags.last().point.depth < d {
            frags.last().point.depth as int
        } else {
            d
        }
    }
}

/// The color of the first write of `frags` on cell `i` that is as near as
/// any, where one is nearer than `start`; `under` where none is.
pub open spec fn shown(
    width: nat,
    height: nat,
    frags: Seq<Fragment>,
    i: int,
    under: Vec3,
    start: int,
) -> Vec3
    decreases frags.len(),
{
    if frags.len() == 0 {
        under
    } else {
        let d = nearest(width, height, frags.drop_last(), i, start);
        if hits(width, height, frags.last(), i) && frags.last().point.depth < d {
            frags.last().color
        } else {
            shown(width, height, frags.drop_last(), i, under, start)
        }
    }
}

/// The depth test keeps, in every cell, the depth of the nearest write
/// that fell on it and the color of the first write that was that near.
pub proof fn law_cell_holds_the_nearest_write(s: Surface, frags: Seq<Fragment>, i: int)
    requires
        s.wf(),
        s.depth_test,
        0 <= i < s.width * s.height,
    ensures
        s.plot_all(frags).depth[i] == nearest(s.width, s.height, frags, i, s.depth[i] as int),
        s.plot_all(frags).frame[i] == shown(
            s.width,
            s.height,
            frags,
            i,
            s.frame[i],
            s.depth[i] as int,
        ),
        s.plot_all(frags).wf(),
    decreases frags.len(),
{
    if frags.len() > 0 {
        let prev = s.plot_all(frags.drop_last());
        law_cell_holds_the_nearest_write(s, frags.drop_last(), i);
        lemma_plot_all_size(s, frags.drop_last());
        let p = frags.last().point;
        if prev.in_range(p.x as int, p.y as int) {
            lemma_index_in_bounds(prev, p.x as int, p.y as int);
        }
    }
}

/// The nearest depth is the smaller of the start and the nearest depth
/// among the writes alone.
proof fn lemma_nearest_is_min(width: nat, height: nat, frags: Seq<Fragment>, i: int, start: int)
    requires
        start <= DEPTH_INFINITY,
    ensures
        nearest(width, height, frags, i, start) == (if start <= nearest(
            width,
            height,
            frags,
            i,
            DEPTH_INFINITY as int,
        ) {
            start
        } else {
            nearest(width, height, frags, i, DEPTH_INFINITY as int)
        }),
        nearest(width, height, frags, i, DEPTH_INFINITY as int) <= DEPTH_INFINITY,
    decreases frags.len(),
{
    let inf = DEPTH_INFINITY as int;
    if frags.len() > 0 {
        let init = frags.drop_last();
        lemma_nearest_is_min(width, height, init, i, start);
        let f = frags.last();
        let d = nearest(width, height, init, i, start);
        let m = nearest(width, height, init, i, inf);
        assert(nearest(width, height, frags, i, start) == (if hits(width, height, f, i)
            && f.point.depth < d {
            f.point.depth as int
        } else {
            d
        }));
        assert(nearest(width, height, frags, i, inf) == (if hits(width, height, f, i)
            && f.point.depth < m {
            f.point.depth as int
        } else {
            m
        }));
    }
}

/// The nearest depth over two sequences in turn is that over the second,
/// started from that over the first.
proof fn lemma_nearest_concat(
    width: nat,
    height: nat,
    a: Seq<Fragment>,
    b: Seq<Fragment>,
    i: int,
    start: int,
)
    ensures
        nearest(width, height, a + b, i, start) == nearest(
            width,
            height,
            b,
            i,
            nearest(width, height, a, i, start),
        ),
    decreases b.len(),
{
    if b.len() == 0 {
        assert(a + b =~= a);
    } else {
        lemma_nearest_concat(width, height, a, b.drop_last(), i, start);
        assert((a + b).drop_last() =~= a + b.drop_last());
    }
}

/// Writes that are no nearer than what a cell holds leave its color.
proof fn lemma_nothing_lands(
    width: nat,
    height: nat,
    frags: Seq<Fragment>,
    i: int,
    under: Vec3,
    start: int,
)
    requires
        start <= DEPTH_INFINITY,
        start <= nearest(width, height, frags, i, DEPTH_INFINITY as int),
    ensures
        shown(width, height, frags, i, under, start) == under,
    decreases frags.len(),
{
    if frags.len() > 0 {
        lemma_nearest_is_min(width, height, frags.drop_last(), i, start);
        lemma_nothing_lands(width, height, frags.drop_last(), i, under, start);
    }
}

/// Where a write of the sequence is nearer than what the cell holds, the
/// color the cell ends in does not depend on what it held.
proof fn lemma_shown_forgets_the_start(
    width: nat,
    height: nat,
    frags: Seq<Fragment>,
    i: int,
    under1: Vec3,
    start1: int,
    under2: Vec3,
    start2: int,
)
    requires
        start1 <= DEPTH_INFINITY,
        start2 <= DEPTH_INFINITY,
        nearest(width, height, frags, i, DEPTH_INFINITY as int) < start1,
        nearest(width, height, frags, i, DEPTH_INFINITY as int) < start2,
    ensures
        shown(width, height, frags, i, under1, start1) == shown(
            width,
            height,
            frags,
            i,
            under2,
            start2,
        ),
    decreases frags.len(),
{
    if frags.len() > 0 {
        let init = frags.drop_last();
        lemma_nearest_is_min(width, height, init, i, start1);
        lemma_nearest_is_min(width, height, init, i, start2);
        let f = frags.last();
        let inf = DEPTH_INFINITY as int;
        let m_init = nearest(width, height, init, i, inf);
        assert(nearest(width, height, frags, i, inf) == (if hits(width, height, f, i)
            && f.point.depth < m_init {
            f.point.depth as int
        } else {
            m_init
        }));
        if hits(width, height, f, i) && f.point.depth < m_init {
            assert(f.point.depth < nearest(width, height, init, i, start1));
            assert(f.point.depth < nearest(width, height, init, i, start2));
        } else {
            lemma_shown_forgets_the_start(width, height, init, i, under1, start1, under2, start2);
        }
    }
}

/// The color over two sequences in turn is that over the second, started
/// from what the first left.
proof fn lemma_shown_concat(
    width: nat,
    height: nat,
    a: Seq<Fragment>,
    b: Seq<Fragment>,
    i: int,
    under: Vec3,
    start: int,
)
    ensures
        shown(width, height, a + b, i, under, start) == shown(
            width,
            height,
            b,
            i,
            shown(width, height, a, i, under, start),
            nearest(width, height, a, i, start),
        ),
    decreases b.len(),
{
    if b.len() == 0 {
        assert(a + b =~= a);
    } else {
        lemma_shown_concat(width, height, a, b.drop_last(), i, under, start);
        lemma_nearest_concat(width, height, a, b.drop_last(), i, start);
        assert((a + b).drop_last() =~= a + b.drop_last());
    }
}

/// The depth buffer does not depend on the order of drawing: two batches
/// of writes leave the same depth in every cell whichever is made first.
pub proof fn law_depth_buffer_is_order_independent(s: Surface, a: Seq<Fragment>, b: Seq<Fragment>)
    requires
        s.wf(),
        s.depth_test,
    ensures
        s.plot_all(a + b).depth == s.plot_all(b + a).depth,
{
    let one = s.plot_all(a + b);
    let other = s.plot_all(b + a);
    crate::laws::law_writes_keep_surface_wf(s, a + b);
    crate::laws::law_writes_keep_surface_wf(s, b + a);
    assert forall|i: int| 0 <= i < s.width * s.height implies one.depth[i] == other.depth[i] by {
        law_cell_holds_the_nearest_write(s, a + b, i);
        law_cell_holds_the_nearest_write(s, b + a, i);
        let d = s.depth[i] as int;
        lemma_nearest_concat(s.width, s.height, a, b, i, d);
        lemma_nearest_concat(s.width, s.height, b, a, i, d);
        lemma_nearest_is_min(s.width, s.height, a, i, d);
        lemma_nearest_is_min(s.width, s.height, b, i, d);
        lemma_nearest_is_min(s.width, s.height, b, i, nearest(s.width, s.height, a, i, d));
        lemma_nearest_is_min(s.width, s.height, a, i, nearest(s.width, s.height, b, i, d));
    }
    assert(one.depth =~= other.depth);
}

/// Depth decides between two batches of writes: where the nearest write
/// of `near` on a cell is nearer than every write of `far` on it, and
/// nearer than what the cell held, the cell ends in the color that `near`
/// alone would give it, whichever batch is drawn first.
pub proof fn law_nearer_batch_wins(s: Surface, near: Seq<Fragment>, far: Seq<Fragment>, i: int)
    requires
        s.wf(),
        s.depth_test,
        0 <= i < s.width * s.height,
        nearest(s.width, s.height, near, i, DEPTH_INFINITY as int) < nearest(
            s.width,
            s.height,
            far,
            i,
            DEPTH_INFINITY as int,
        ),
        nearest(s.width, s.height, near, i, DEPTH_INFINITY as int) < s.depth[i],
    ensures
        s.plot_all(near + far).frame[i] == s.plot_all(near).frame[i],
        s.plot_all(far + near).frame[i] == s.plot_all(near).frame[i],
{
    let (w, h) = (s.width, s.height);
    let d = s.depth[i] as int;
    let c = s.frame[i];
    law_cell_holds_the_nearest_write(s, near, i);
    law_cell_holds_the_nearest_write(s, near + far, i);
    law_cell_holds_the_nearest_write(s, far + near, i);
    lemma_shown_concat(w, h, near, far, i, c, d);
    lemma_shown_concat(w, h, far, near, i, c, d);
    lemma_nearest_is_min(w, h, near, i, d);
    lemma_nearest_is_min(w, h, far, i, d);
    lemma_nothing_lands(w, h, far, i, shown(w, h, near, i, c, d), nearest(w, h, near, i, d));
    lemma_shown_forgets_the_start(
        w,
        h,
        near,
        i,
        shown(w, h, far, i, c, d),
        nearest(w, h, far, i, d),
        c,
        d,
    );
}

/// The first batch wins a tie: where no write of `second` on a cell is
/// nearer than the nearest write of `first` on it, and that one is nearer
/// than what the cell held, the cell keeps the color that `first` gave it.
pub proof fn law_first_batch_wins_ties(
    s: Surface,
    first: Seq<Fragment>,
    second: Seq<Fragment>,
    i: int,
)
    requires
        s.wf(),
        s.depth_test,
        0 <= i < s.width * s.height,
        nearest(s.width, s.height, first, i, DEPTH_INFINITY as int) <= nearest(
            s.width,
            s.height,
            second,
            i,
            DEPTH_INFINITY as int,
        ),
        nearest(s.width, s.height, first, i, DEPTH_INFINITY as int) < s.depth[i],
    ensures
        s.plot_all(first + second).frame[i] == s.plot_all(first).frame[i],
        s.plot_all(first + second).depth[i] == s.plot_all(first).depth[i],
{
    let (w, h) = (s.width, s.height);
    let d = s.depth[i] as int;
    let c = s.frame[i];
    law_cell_holds_the_nearest_write(s, first, i);
    law_cell_holds_the_nearest_write(s, first + second, i);
    lemma_shown_concat(w, h, first, second, i, c, d);
    lemma_nearest_concat(w, h, first, second, i, d);
    lemma_nearest_is_min(w, h, first, i, d);
    lemma_nearest_is_min(w, h, second, i, nearest(w, h, first, i, d));
    lemma_nothing_lands(w, h, second, i, shown(w, h, first, i, c, d), nearest(w, h, first, i, d));
}

} // verus!
