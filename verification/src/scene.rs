//! What a draw call writes: the triangle that each index triple assembles
//! into, and the pixel writes of the whole batch in order.

use vstd::prelude::*;
use crate::canvas::{lemma_plot_all_concat, lemma_plot_all_size, Canvas, Fragment};
use crate::error::RasterError;
use crate::fill::{fill_fragments, wireframe_fragments};
use crate::transform::TransformPipeline;
use crate::triangle::{channel_ok, Triangle, TriangleView};
use crate::vector::{IndexTriple, Mat4, Vec3};

verus! {

/// Whether each of the three indices of `tri` is an offset into a position
/// buffer of `n_pos` vertices and into a color buffer of `n_col` colors.
pub open spec fn index_ok(tri: IndexTriple, n_pos: nat, n_col: nat) -> bool {
    &&& 0 <= tri.i0 < n_pos && tri.i0 < n_col
    &&& 0 <= tri.i1 < n_pos && tri.i1 < n_col
    &&& 0 <= tri.i2 < n_pos && tri.i2 < n_col
}

/// Whether each channel of `c` lies between 0 and 255.
pub open spec fn color_ok(c: Vec3) -> bool {
    channel_ok(c.x as int) && channel_ok(c.y as int) && channel_ok(c.z as int)
}

/// Whether the three colors that `tri` refers to are colors.
pub open spec fn colors_ok(tri: IndexTriple, col: Seq<Vec3>) -> bool {
    color_ok(col[tri.i0 as int]) && color_ok(col[tri.i1 as int]) && color_ok(col[tri.i2 as int])
}

/// The triangle that the index triple `tri` assembles into: the three
/// referenced positions carried to the viewport, each with its clip-space
/// w, and the three referenced colors.
#[verifier::opaque]
pub open spec fn assembled(
    tri: IndexTriple,
    pos: Seq<Vec3>,
    col: Seq<Vec3>,
    pipeline: TransformPipeline,
    width: int,
    height: int,
) -> TriangleView {
    let s0 = pipeline.project_spec(pos[tri.i0 as int], width, height);
    let s1 = pipeline.project_spec(pos[tri.i1 as int], width, height);
    let s2 = pipeline.project_spec(pos[tri.i2 as int], width, height);
    TriangleView {
        v: seq![s0.position, s1.position, s2.position],
        color: seq![col[tri.i0 as int], col[tri.i1 as int], col[tri.i2 as int]],
        w: seq![s0.w, s1.w, s2.w],
        ..TriangleView::blank()
    }
}

/// The pixel writes of one triangle: its wireframe, then its interior
/// where `fill` holds.
#[verifier::opaque]
pub open spec fn triangle_fragments(t: TriangleView, fill: bool, blend: bool) -> Seq<Fragment> {
    if fill {
        wireframe_fragments(t) + fill_fragments(t, blend)
    } else {
        wireframe_fragments(t)
    }
}

/// What a batch is drawn with: the resolved buffers, the transform, the
/// viewport size and the two shading choices.
pub struct Batch {
    pub indices: Seq<IndexTriple>,
    pub positions: Seq<Vec3>,
    pub colors: Seq<Vec3>,
    pub pipeline: TransformPipeline,
    pub width: int,
    pub height: int,
    pub fill: bool,
    pub blend: bool,
}

impl Batch {
    /// The triangle that index triple number `i` assembles into.
    pub open spec fn triangle(self, i: int) -> TriangleView {
        assembled(
            self.indices[i],
            self.positions,
            self.colors,
            self.pipeline,
            self.width,
            self.height,
        )
    }

    /// The pixel writes of the first `n` triangles, in order.
    pub open spec fn fragments(self, n: nat) -> Seq<Fragment>
        decreases n,
    {
        if n == 0 {
            Seq::empty()
        } else {
            self.fragments((n - 1) as nat) + triangle_fragments(
                self.triangle(n - 1),
                self.fill,
                self.blend,
            )
        }
    }

    /// Whether index triple number `i` can be drawn: it refers into both
    /// buffers, and to three colors whose channels lie between 0 and 255.
    pub open spec fn ok_at(self, i: int) -> bool {
        &&& index_ok(self.indices[i], self.positions.len(), self.colors.len())
        &&& colors_ok(self.indices[i], self.colors)
    }

    /// Why index triple number `i` cannot be drawn, where it cannot: its
    /// indices are looked at before the colors they refer to.
    pub open spec fn failure_at(self, i: int) -> RasterError {
        if !index_ok(self.indices[i], self.positions.len(), self.colors.len()) {
            RasterError::IndexOutOfRange
        } else {
            RasterError::InvalidColorValue
        }
    }

    /// What drawing the batch returns: success where every triangle was
    /// drawn, the failure of the first that was not otherwise.
    pub open spec fn outcome(self) -> Result<(), RasterError> {
        if self.drawn() == self.indices.len() {
            Ok(())
        } else {
            Err(self.failure_at(self.drawn()))
        }
    }

    /// Whether `n` is the number of triangles drawn: the index triples
    /// before number `n` can all be drawn, and number `n` is the first
    /// that cannot, or the end of the batch.
    pub open spec fn stops_at(self, n: int) -> bool {
        &&& 0 <= n <= self.indices.len()
        &&& forall|j: int| 0 <= j < n ==> self.ok_at(j)
        &&& n < self.indices.len() ==> !self.ok_at(n)
    }

    /// The number of triangles drawn.
    pub open spec fn drawn(self) -> int {
        choose|n: int| self.stops_at(n)
    }
}

/// A batch stops at exactly one place.
pub proof fn lemma_stops_unique(b: Batch, m: int, n: int)
    requires
        b.stops_at(m),
        b.stops_at(n),
    ensures
        m == n,
{
    if m < n {
        assert(b.ok_at(m));
    } else if n < m {
        assert(b.ok_at(n));
    }
}

/// The place a batch is seen to stop at is the number of triangles drawn.
pub proof fn lemma_drawn(b: Batch, n: int)
    requires
        b.stops_at(n),
    ensures
        b.drawn() == n,
{
    lemma_stops_unique(b, b.drawn(), n);
}

impl Canvas {
    /// Draws one triangle: its wireframe, then its interior where `fill`
    /// holds.
    pub fn draw_triangle(&mut self, t: &Triangle, fill: bool, blend: bool)
        ensures
            final(self)@ == old(self)@.plot_all(triangle_fragments(t@, fill, blend)),
    {
        reveal(triangle_fragments);
        self.rasterize_wireframe(t);
        if fill {
            self.rasterize_triangle(t, blend);
            proof {
                lemma_plot_all_concat(
                    old(self)@,
                    wireframe_fragments(t@),
                    fill_fragments(t@, blend),
                );
            }
        }
    }

    /// Draws the triangle that `tri` refers to. Fails, with nothing drawn,
    /// where one of its colors has a channel outside 0 to 255.
    fn draw_indexed(
        &mut self,
        tri: &IndexTriple,
        pos: &Vec<Vec3>,
        col: &Vec<Vec3>,
        pipeline: &TransformPipeline,
        mvp: &Mat4,
        fill: bool,
        blend: bool,
    ) -> (r: Result<(), RasterError>)
        requires
            index_ok(*tri, pos@.len(), col@.len()),
            *mvp == pipeline.mvp_spec(),
        ensures
            colors_ok(*tri, col@) ==> r == Ok::<(), RasterError>(()) && final(self)@ == old(
                self,
            )@.plot_all(
                triangle_fragments(
                    assembled(
                        *tri,
                        pos@,
                        col@,
                        *pipeline,
                        old(self)@.width as int,
                        old(self)@.height as int,
                    ),
                    fill,
                    blend,
                ),
            ),
            !colors_ok(*tri, col@) ==> r == Err::<(), RasterError>(RasterError::InvalidColorValue)
                && final(self)@ == old(self)@,
    {
        let width = self.width();
        let height = self.height();
        match assemble(tri, pos, col, pipeline, mvp, width, height) {
            Ok(t) => {
                self.draw_triangle(&t, fill, blend);
                Ok(())
            },
            Err(e) => Err(e),
        }
    }

    /// Draws a batch of indexed triangles, in order, up to the first index
    /// triple that refers past the end of `pos` or `col`, or to a color
    /// with a channel outside 0 to 255. Fails where there is such a triple;
    /// the triangles before it stay drawn, and nothing of it or after it
    /// is.
    pub fn draw_batch(
        &mut self,
        pos: &Vec<Vec3>,
        ind: &Vec<IndexTriple>,
        col: &Vec<Vec3>,
        pipeline: &TransformPipeline,
        fill: bool,
        blend: bool,
    ) -> (r: Result<(), RasterError>)
        ensures
            ({
                let b = Batch {
                    indices: ind@,
                    positions: pos@,
                    colors: col@,
                    pipeline: *pipeline,
                    width: old(self)@.width as int,
                    height: old(self)@.height as int,
                    fill,
                    blend,
                };
                &&& final(self)@ == old(self)@.plot_all(b.fragments(b.drawn() as nat))
                &&& r == b.outcome()
            }),
    {
        let mvp = pipeline.mvp();
        let ghost batch = Batch {
            indices: ind@,
            positions: pos@,
            colors: col@,
            pipeline: *pipeline,
            width: old(self)@.width as int,
            height: old(self)@.height as int,
            fill,
            blend,
        };
        let mut k: usize = 0;
        while k < ind.len()
            invariant
                0 <= k <= ind@.len(),
                batch == (Batch {
                    indices: ind@,
                    positions: pos@,
                    colors: col@,
                    pipeline: *pipeline,
                    width: old(self)@.width as int,
                    height: old(self)@.height as int,
                    fill,
                    blend,
                }),
                forall|j: int| 0 <= j < k ==> batch.ok_at(j),
                mvp == pipeline.mvp_spec(),
                self@ == old(self)@.plot_all(batch.fragments(k as nat)),
            decreases ind@.len() - k,
        {
            let tri = ind[k];
            if tri.i0 < 0 || tri.i1 < 0 || tri.i2 < 0 || tri.i0 as usize >= pos.len() || tri.i1 as usize
                >= pos.len() || tri.i2 as usize >= pos.len() || tri.i0 as usize >= col.len()
                || tri.i1 as usize >= col.len() || tri.i2 as usize >= col.len() {
                proof {
                    assert(!batch.ok_at(k as int));
                    lemma_drawn(batch, k as int);
                }
                return Err(RasterError::IndexOutOfRange);
            }
            proof {
                lemma_plot_all_size(old(self)@, batch.fragments(k as nat));
            }
            match self.draw_indexed(&tri, pos, col, pipeline, &mvp, fill, blend) {
                Ok(()) => {},
                Err(e) => {
                    proof {
                        assert(!batch.ok_at(k as int));
                        lemma_drawn(batch, k as int);
                    }
                    return Err(e);
                },
            }
            assert(batch.ok_at(k as int));
            proof {
                lemma_plot_all_concat(
                    old(self)@,
                    batch.fragments(k as nat),
                    triangle_fragments(batch.triangle(k as int), fill, blend),
                );
            }
            k = k + 1;
        }
        proof {
            lemma_drawn(batch, k as int);
        }
        Ok(())
    }
}

/// Builds the triangle that `tri` refers to: see [`assembled`]. Fails
/// where one of its colors has a channel outside 0 to 255.
pub fn assemble(
    tri: &IndexTriple,
    pos: &Vec<Vec3>,
    col: &Vec<Vec3>,
    pipeline: &TransformPipeline,
    mvp: &Mat4,
    width: usize,
    height: usize,
) -> (r: Result<Triangle, RasterError>)
    requires
        index_ok(*tri, pos@.len(), col@.len()),
        *mvp == pipeline.mvp_spec(),
    ensures
        colors_ok(*tri, col@) ==> (r matches Ok(t) && t@ == assembled(
            *tri,
            pos@,
            col@,
            *pipeline,
            width as int,
            height as int,
        )),
        !colors_ok(*tri, col@) ==> (r matches Err(e) && e == RasterError::InvalidColorValue),
{
    let i0: usize = tri.i0 as usize;
    let i1: usize = tri.i1 as usize;
    let i2: usize = tri.i2 as usize;
    let s0 = pipeline.project(mvp, &pos[i0], width, height);
    let s1 = pipeline.project(mvp, &pos[i1], width, height);
    let s2 = pipeline.project(mvp, &pos[i2], width, height);
    let mut t = Triangle::default();
    let _ = t.set_vertex(0, s0.position);
    let _ = t.set_vertex(1, s1.position);
    let _ = t.set_vertex(2, s2.position);
    let _ = t.set_w(0, s0.w);
    let _ = t.set_w(1, s1.w);
    let _ = t.set_w(2, s2.w);
    let c0 = col[i0];
    let c1 = col[i1];
    let c2 = col[i2];
    match t.set_color(0, c0.x, c0.y, c0.z) {
        Ok(()) => {},
        Err(e) => {
            return Err(e);
        },
    }
    match t.set_color(1, c1.x, c1.y, c1.z) {
        Ok(()) => {},
        Err(e) => {
            return Err(e);
        },
    }
    match t.set_color(2, c2.x, c2.y, c2.z) {
        Ok(()) => {},
        Err(e) => {
            return Err(e);
        },
    }
    proof {
        reveal(assembled);
        let want = assembled(*tri, pos@, col@, *pipeline, width as int, height as int);
        assert(t@.v =~= want.v);
        assert(t@.w =~= want.w);
        assert(t@.color =~= want.color);
    }
    Ok(t)
}

} // verus!
