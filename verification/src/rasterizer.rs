//! The rasterizer: a geometry store, a transform pipeline and a canvas
//! behind one interface. A draw call resolves its handles, carries each
//! indexed triangle to the viewport, and writes its wireframe and, where
//! filling is on, its interior.

use vstd::prelude::*;
use crate::buffers::Buffers;
use crate::canvas::{Canvas, Pixel, Surface};
use crate::error::{BufferKind, RasterError};
use crate::fill::{fill_fragments, wireframe_fragments};
use crate::handles::{ColBuf, IndBuf, PosBuf};
use crate::line::line_fragments;
use crate::scene::Batch;
use crate::store::{GeometryStore, Load, StoreView};
use crate::transform::TransformPipeline;
use crate::triangle::Triangle;
use crate::vector::{IndexTriple, Mat4, Vec3};

verus! {

/// The kinds of primitive that a draw call can be asked for. Only
/// triangles can be drawn.
#[derive(Clone, Copy, PartialEq, Eq, Structural, Debug)]
pub enum Primitive {
    Triangle,
    Line,
}

/// The mathematical content of a rasterizer.
pub struct RasterizerView {
    pub surface: Surface,
    pub store: StoreView,
    pub pipeline: TransformPipeline,
    /// Whether a draw call fills interiors after the wireframe.
    pub fill: bool,
    /// Whether a filled pixel takes the blend of the three vertex colors
    /// rather than the color of the first vertex.
    pub blend: bool,
}

impl RasterizerView {
    /// The batch that a draw call with these three buffers draws.
    pub open spec fn batch(
        self,
        positions: Seq<Vec3>,
        indices: Seq<IndexTriple>,
        colors: Seq<Vec3>,
    ) -> Batch {
        Batch {
            indices,
            positions,
            colors,
            pipeline: self.pipeline,
            width: self.surface.width as int,
            height: self.surface.height as int,
            fill: self.fill,
            blend: self.blend,
        }
    }

    /// What a draw call returns and leaves behind.
    pub open spec fn draw(self, pos: nat, ind: nat, col: nat, primitive: Primitive) -> (
        Result<(), RasterError>,
        RasterizerView,
    ) {
        if primitive != Primitive::Triangle {
            (Err(RasterError::UnsupportedPrimitive), self)
        } else if !self.store.positions.contains_key(pos) {
            (Err(RasterError::InvalidHandle { kind: BufferKind::Position }), self)
        } else if !self.store.indices.contains_key(ind) {
            (Err(RasterError::InvalidHandle { kind: BufferKind::Index }), self)
        } else if !self.store.colors.contains_key(col) {
            (Err(RasterError::InvalidHandle { kind: BufferKind::Color }), self)
        } else {
            let b = self.batch(
                self.store.positions[pos],
                self.store.indices[ind],
                self.store.colors[col],
            );
            (
                b.outcome(),
                RasterizerView {
                    surface: self.surface.plot_all(b.fragments(b.drawn() as nat)),
                    ..self
                },
            )
        }
    }
}

/// A software rasterizer over a fixed-size canvas.
pub struct Rasterizer {
    canvas: Canvas,
    store: GeometryStore,
    pipeline: TransformPipeline,
    fill: bool,
    blend: bool,
}

impl View for Rasterizer {
    type V = RasterizerView;

    closed spec fn view(&self) -> RasterizerView {
        RasterizerView {
            surface: self.canvas@,
            store: self.store@,
            pipeline: self.pipeline,
            fill: self.fill,
            blend: self.blend,
        }
    }
}

impl Rasterizer {
    /// A rasterizer with a blank canvas of `width` by `height` pixels, an
    /// empty store and an identity transform, that fills interiors in the
    /// color of the first vertex and tests depth.
    pub fn new(width: usize, height: usize) -> (r: Self)
        requires
            width * height <= usize::MAX,
        ensures
            r@ == (RasterizerView {
                surface: Surface::blank(width as nat, height as nat, true),
                store: StoreView::empty(),
                pipeline: TransformPipeline::identity_spec(),
                fill: true,
                blend: false,
            }),
    {
        Rasterizer {
            canvas: Canvas::new(width, height),
            store: GeometryStore::new(),
            pipeline: TransformPipeline::new(),
            fill: true,
            blend: false,
        }
    }

    /// Resets the buffers named in `buffers`: every frame cell to black,
    /// every depth cell to infinity.
    pub fn clear(&mut self, buffers: Buffers)
        ensures
            final(self)@ == (RasterizerView {
                surface: old(self)@.surface.cleared(buffers),
                ..old(self)@
            }),
    {
        self.canvas.clear(buffers);
    }

    pub fn set_model(&mut self, model: Mat4)
        ensures
            final(self)@ == (RasterizerView {
                pipeline: TransformPipeline { model, ..old(self)@.pipeline },
                ..old(self)@
            }),
    {
        self.pipeline.model = model;
    }

    pub fn set_view(&mut self, view: Mat4)
        ensures
            final(self)@ == (RasterizerView {
                pipeline: TransformPipeline { view, ..old(self)@.pipeline },
                ..old(self)@
            }),
    {
        self.pipeline.view = view;
    }

    pub fn set_projection(&mut self, projection: Mat4)
        ensures
            final(self)@ == (RasterizerView {
                pipeline: TransformPipeline { projection, ..old(self)@.pipeline },
                ..old(self)@
            }),
    {
        self.pipeline.projection = projection;
    }

    /// Sets the near and far depths that the remapped depth spans. They
    /// should be those that the projection matrix was built from.
    pub fn set_depth_range(&mut self, z_near: i32, z_far: i32)
        ensures
            final(self)@ == (RasterizerView {
                pipeline: TransformPipeline { z_near, z_far, ..old(self)@.pipeline },
                ..old(self)@
            }),
    {
        self.pipeline.z_near = z_near;
        self.pipeline.z_far = z_far;
    }

    /// Turns the filling of interiors on or off.
    pub fn set_fill(&mut self, on: bool)
        ensures
            final(self)@ == (RasterizerView { fill: on, ..old(self)@ }),
    {
        self.fill = on;
    }

    /// Turns the depth test of pixel writes on or off.
    pub fn set_depth_test(&mut self, on: bool)
        ensures
            final(self)@ == (RasterizerView {
                surface: Surface { depth_test: on, ..old(self)@.surface },
                ..old(self)@
            }),
    {
        self.canvas.set_depth_test(on);
    }

    /// Chooses between blending the three vertex colors over a filled
    /// triangle and filling it in the color of its first vertex.
    pub fn set_interpolate_color(&mut self, on: bool)
        ensures
            final(self)@ == (RasterizerView { blend: on, ..old(self)@ }),
    {
        self.blend = on;
    }

    /// Writes one pixel through the depth test.
    pub fn set_pixel(&mut self, point: &Pixel, color: &Vec3)
        ensures
            final(self)@ == (RasterizerView {
                surface: old(self)@.surface.plot(*point, *color),
                ..old(self)@
            }),
    {
        self.canvas.set_pixel(point, color);
    }

    /// Stores a position buffer and returns its handle.
    pub fn load_positions(&mut self, positions: Vec<Vec3>) -> (h: PosBuf)
        requires
            old(self)@.store.next_id < usize::MAX,
        ensures
            h.id() == old(self)@.store.next_id,
            final(self)@ == (RasterizerView {
                store: old(self)@.store.load(Load::Positions(positions@)),
                ..old(self)@
            }),
            old(self)@.store.wf(),
            final(self)@.store.wf(),
    {
        self.store.load_positions(positions)
    }

    /// Stores an index buffer and returns its handle.
    pub fn load_indices(&mut self, indices: Vec<IndexTriple>) -> (h: IndBuf)
        requires
            old(self)@.store.next_id < usize::MAX,
        ensures
            h.id() == old(self)@.store.next_id,
            final(self)@ == (RasterizerView {
                store: old(self)@.store.load(Load::Indices(indices@)),
                ..old(self)@
            }),
            old(self)@.store.wf(),
            final(self)@.store.wf(),
    {
        self.store.load_indices(indices)
    }

    /// Stores a color buffer and returns its handle.
    pub fn load_colors(&mut self, colors: Vec<Vec3>) -> (h: ColBuf)
        requires
            old(self)@.store.next_id < usize::MAX,
        ensures
            h.id() == old(self)@.store.next_id,
            final(self)@ == (RasterizerView {
                store: old(self)@.store.load(Load::Colors(colors@)),
                ..old(self)@
            }),
            old(self)@.store.wf(),
            final(self)@.store.wf(),
    {
        self.store.load_colors(colors)
    }

    /// Draws the triangles of the index buffer `ind_buffer` over the
    /// positions of `pos_buffer` and the colors of `col_buffer`.
    ///
    /// Fails, with nothing drawn, where `primitive` is not
    /// [`Primitive::Triangle`] or a handle names no buffer; the primitive
    /// is looked at first, then the position, index and color handle. An
    /// index triple that refers past the end of a buffer, or to a color
    /// with a channel outside 0 to 255, ends the call with a failure; the
    /// triangles before it stay drawn.
    pub fn draw(
        &mut self,
        pos_buffer: &PosBuf,
        ind_buffer: &IndBuf,
        col_buffer: &ColBuf,
        primitive: Primitive,
    ) -> (r: Result<(), RasterError>)
        ensures
            (r, final(self)@) == old(self)@.draw(
                pos_buffer.id(),
                ind_buffer.id(),
                col_buffer.id(),
                primitive,
            ),
    {
        match primitive {
            Primitive::Triangle => {},
            Primitive::Line => {
                return Err(RasterError::UnsupportedPrimitive);
            },
        }
        let buf = match self.store.positions(pos_buffer) {
            Ok(b) => b,
            Err(e) => {
                return Err(e);
            },
        };
        let ind = match self.store.indices(ind_buffer) {
            Ok(b) => b,
            Err(e) => {
                return Err(e);
            },
        };
        let col = match self.store.colors(col_buffer) {
            Ok(b) => b,
            Err(e) => {
                return Err(e);
            },
        };
        self.canvas.draw_batch(buf, ind, col, &self.pipeline, self.fill, self.blend)
    }

    /// The frame buffer: one color per pixel, row by row from the top
    /// scanline down.
    pub fn framebuffer(&self) -> (f: &Vec<Vec3>)
        ensures
            f@ == self@.surface.frame,
            self@.surface.wf(),
    {
        self.canvas.framebuffer()
    }

    /// The depth buffer, laid out as the frame buffer is.
    pub fn depthbuffer(&self) -> (d: &Vec<i64>)
        ensures
            d@ == self@.surface.depth,
            self@.surface.wf(),
    {
        self.canvas.depthbuffer()
    }

    pub fn height(&self) -> (h: usize)
        ensures
            h == self@.surface.height,
    {
        self.canvas.height()
    }

    pub fn width(&self) -> (w: usize)
        ensures
            w == self@.surface.width,
    {
        self.canvas.width()
    }

    /// Draws the line from `begin` to `end` in the line color.
    pub fn draw_line(&mut self, begin: &Vec3, end: &Vec3)
        ensures
            final(self)@ == (RasterizerView {
                surface: old(self)@.surface.plot_all(line_fragments(*begin, *end)),
                ..old(self)@
            }),
    {
        self.canvas.draw_line(begin, end);
    }

    /// Draws the three edges of `t`.
    pub fn rasterize_wireframe(&mut self, t: &Triangle)
        ensures
            final(self)@ == (RasterizerView {
                surface: old(self)@.surface.plot_all(wireframe_fragments(t@)),
                ..old(self)@
            }),
    {
        self.canvas.rasterize_wireframe(t);
    }

    /// Fills the interior of `t`.
    pub fn rasterize_triangle(&mut self, t: &Triangle)
        ensures
            final(self)@ == (RasterizerView {
                surface: old(self)@.surface.plot_all(fill_fragments(t@, old(self)@.blend)),
                ..old(self)@
            }),
    {
        self.canvas.rasterize_triangle(t, self.blend);
    }

    /// The id that the next load will issue.
    pub fn get_next_id(&self) -> (id: usize)
        ensures
            id == self@.store.next_id,
            self@.store.wf(),
    {
        self.store.next_id()
    }

    /// The frame-buffer cell of pixel `(x, y)`, if the pixel is on the
    /// canvas.
    pub fn get_index(&self, x: i64, y: i64) -> (i: Option<usize>)
        ensures
            self@.surface.in_range(x as int, y as int) ==> (i matches Some(k) && k
                == self@.surface.index_of(x as int, y as int) && k < self@.surface.frame.len()),
            !self@.surface.in_range(x as int, y as int) ==> i.is_none(),
    {
        self.canvas.get_index(x, y)
    }
}

} // verus!
