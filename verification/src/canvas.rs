//! The render target: a frame buffer of colors and a depth buffer, both
//! row-major with row 0 the top scanline, and the depth-tested pixel write.

use vstd::prelude::*;
use crate::buffers::Buffers;
use crate::vector::Vec3;

verus! {

/// The depth of a cell that nothing has been drawn to. It is greater than
/// every depth a fragment can carry.
pub const DEPTH_INFINITY: i64 = 0x7fff_ffff_ffff_ffff;

/// A point in pixel space: integer column `x` (rightward), integer row `y`
/// (upward from the bottom scanline), and a fixed-point depth.
#[derive(Clone, Copy, PartialEq, Eq, Structural, Debug)]
pub struct Pixel {
    pub x: i64,
    pub y: i64,
    pub depth: i32,
}

/// A candidate pixel write: where, how deep, and in what color.
#[derive(Clone, Copy, PartialEq, Eq, Structural, Debug)]
pub struct Fragment {
    pub point: Pixel,
    pub color: Vec3,
}

/// The mathematical content of a canvas.
pub struct Surface {
    pub width: nat,
    pub height: nat,
    pub frame: Seq<Vec3>,
    pub depth: Seq<i64>,
    /// Whether writes are subject to the depth test.
    pub depth_test: bool,
}

impl Surface {
    /// Both buffers hold one cell per pixel.
    pub open spec fn wf(self) -> bool {
        &&& self.frame.len() == self.width * self.height
        &&& self.depth.len() == self.width * self.height
    }

    /// Whether pixel `(x, y)` lies on the surface.
    pub open spec fn in_range(self, x: int, y: int) -> bool {
        0 <= x < self.width && 0 <= y < self.height
    }

    /// The cell of pixel `(x, y)`: rows are stored top scanline first.
    pub open spec fn index_of(self, x: int, y: int) -> int {
        (self.height - y - 1) * self.width + x
    }

    /// The surface after one pixel write. A point off the surface changes
    /// nothing. With the depth test on, the cell takes the color and the
    /// depth only where its stored depth is strictly greater; with it off,
    /// the cell takes the color and the depth buffer is left alone.
    pub open spec fn plot(self, point: Pixel, color: Vec3) -> Surface {
        let i = self.index_of(point.x as int, point.y as int);
        if !self.in_range(point.x as int, point.y as int) {
            self
        } else if !self.depth_test {
            Surface { frame: self.frame.update(i, color), ..self }
        } else if self.depth[i] > point.depth {
            Surface {
                frame: self.frame.update(i, color),
                depth: self.depth.update(i, point.depth as i64),
                ..self
            }
        } else {
            self
        }
    }

    /// The surface after a sequence of pixel writes, first to last.
    pub open spec fn plot_all(self, frags: Seq<Fragment>) -> Surface
        decreases frags.len(),
    {
        if frags.len() == 0 {
            self
        } else {
            self.plot_all(frags.drop_last()).plot(frags.last().point, frags.last().color)
        }
    }

    /// The surface after a clear of the buffers in `which`.
    pub open spec fn cleared(self, which: Buffers) -> Surface {
        Surface {
            frame: if which.color {
                Seq::new(self.frame.len(), |i: int| Vec3::zero())
            } else {
                self.frame
            },
            depth: if which.depth {
                Seq::new(self.depth.len(), |i: int| DEPTH_INFINITY)
            } else {
                self.depth
            },
            ..self
        }
    }

    /// A surface of the given size with every cell black and infinitely
    /// deep.
    pub open spec fn blank(width: nat, height: nat, depth_test: bool) -> Surface {
        Surface {
            width,
            height,
            frame: Seq::new(width * height, |i: int| Vec3::zero()),
            depth: Seq::new(width * height, |i: int| DEPTH_INFINITY),
            depth_test,
        }
    }
}

/// A cell index computed from a pixel on the surface is a valid offset.
pub proof fn lemma_index_in_bounds(s: Surface, x: int, y: int)
    requires
        s.in_range(x, y),
    ensures
        0 <= s.index_of(x, y) < s.width * s.height,
{
    let r = s.height - y - 1;
    assert(0 <= r * s.width && r * s.width + s.width <= s.height * s.width) by (nonlinear_arith)
        requires
            0 <= r <= s.height - 1,
            0 <= s.width,
    ;
}

/// A sequence of pixel writes keeps the surface's size and its depth-test
/// setting.
pub proof fn lemma_plot_all_size(s: Surface, frags: Seq<Fragment>)
    ensures
        s.plot_all(frags).width == s.width,
        s.plot_all(frags).height == s.height,
        s.plot_all(frags).depth_test == s.depth_test,
    decreases frags.len(),
{
    if frags.len() > 0 {
        lemma_plot_all_size(s, frags.drop_last());
    }
}

/// Writing one more fragment after a sequence is writing the longer
/// sequence.
pub proof fn lemma_plot_all_push(s: Surface, frags: Seq<Fragment>, f: Fragment)
    ensures
        s.plot_all(frags.push(f)) == s.plot_all(frags).plot(f.point, f.color),
{
    assert(frags.push(f).drop_last() =~= frags);
}

/// Writing two sequences in turn is writing their concatenation.
pub proof fn lemma_plot_all_concat(s: Surface, a: Seq<Fragment>, b: Seq<Fragment>)
    ensures
        s.plot_all(a + b) == s.plot_all(a).plot_all(b),
    decreases b.len(),
{
    if b.len() == 0 {
        assert(a + b =~= a);
    } else {
        lemma_plot_all_concat(s, a, b.drop_last());
        assert((a + b).drop_last() =~= a + b.drop_last());
    }
}

/// The render target.
pub struct Canvas {
    width: usize,
    height: usize,
    frame_buf: Vec<Vec3>,
    depth_buf: Vec<i64>,
    depth_test: bool,
}

impl View for Canvas {
    type V = Surface;

    closed spec fn view(&self) -> Surface {
        Surface {
            width: self.width as nat,
            height: self.height as nat,
            frame: self.frame_buf@,
            depth: self.depth_buf@,
            depth_test: self.depth_test,
        }
    }
}

impl Canvas {
    #[verifier::type_invariant]
    spec fn inv(self) -> bool {
        &&& self.frame_buf@.len() == self.width * self.height
        &&& self.depth_buf@.len() == self.width * self.height
    }

    /// A canvas of `width` by `height` pixels, black and infinitely deep,
    /// with the depth test on.
    pub fn new(width: usize, height: usize) -> (c: Self)
        requires
            width * height <= usize::MAX,
        ensures
            c@ == Surface::blank(width as nat, height as nat, true),
            c@.wf(),
    {
        let n: usize = width * height;
        let frame_buf: Vec<Vec3> = vec![Vec3 { x: 0, y: 0, z: 0 }; n];
        let depth_buf: Vec<i64> = vec![DEPTH_INFINITY; n];
        let c = Canvas { width, height, frame_buf, depth_buf, depth_test: true };
        assert(c@.frame =~= Surface::blank(width as nat, height as nat, true).frame);
        assert(c@.depth =~= Surface::blank(width as nat, height as nat, true).depth);
        c
    }

    pub fn width(&self) -> (w: usize)
        ensures
            w == self@.width,
    {
        self.width
    }

    pub fn height(&self) -> (h: usize)
        ensures
            h == self@.height,
    {
        self.height
    }

    pub fn depth_test(&self) -> (on: bool)
        ensures
            on == self@.depth_test,
    {
        self.depth_test
    }

    /// Turns the depth test on or off for later writes.
    pub fn set_depth_test(&mut self, on: bool)
        ensures
            final(self)@ == (Surface { depth_test: on, ..old(self)@ }),
    {
        proof {
            use_type_invariant(&*self);
        }
        self.depth_test = on;
    }

    /// The frame buffer, row-major, top scanline first.
    pub fn framebuffer(&self) -> (f: &Vec<Vec3>)
        ensures
            f@ == self@.frame,
            self@.wf(),
    {
        proof {
            use_type_invariant(self);
        }
        &self.frame_buf
    }

    /// The depth buffer, laid out as the frame buffer is.
    pub fn depthbuffer(&self) -> (d: &Vec<i64>)
        ensures
            d@ == self@.depth,
            self@.wf(),
    {
        proof {
            use_type_invariant(self);
        }
        &self.depth_buf
    }

    /// Resets the buffers named in `buffers`: every frame cell to black,
    /// every depth cell to infinity.
    pub fn clear(&mut self, buffers: Buffers)
        ensures
            final(self)@ == old(self)@.cleared(buffers),
            final(self)@.wf(),
    {
        proof {
            use_type_invariant(&*self);
        }
        if buffers.contains(Buffers::color()) {
            let n: usize = self.frame_buf.len();
            let mut i: usize = 0;
            while i < n
                invariant
                    i <= n,
                    n == self.frame_buf@.len(),
                    self.frame_buf@.len() == self.width * self.height,
                    self.depth_buf@.len() == self.width * self.height,
                    self.width == old(self).width,
                    self.height == old(self).height,
                    self.depth_buf == old(self).depth_buf,
                    self.depth_test == old(self).depth_test,
                    forall|j: int| 0 <= j < i ==> self.frame_buf@[j] == Vec3::zero(),
                decreases n - i,
            {
                self.frame_buf[i] = Vec3 { x: 0, y: 0, z: 0 };
                i = i + 1;
            }
        }
        if buffers.contains(Buffers::depth()) {
            let n: usize = self.depth_buf.len();
            let mut i: usize = 0;
            while i < n
                invariant
                    i <= n,
                    n == self.depth_buf@.len(),
                    self.frame_buf@.len() == self.width * self.height,
                    self.depth_buf@.len() == self.width * self.height,
                    self.width == old(self).width,
                    self.height == old(self).height,
                    self.frame_buf@ == old(self)@.cleared(buffers).frame,
                    self.depth_test == old(self).depth_test,
                    forall|j: int| 0 <= j < i ==> self.depth_buf@[j] == DEPTH_INFINITY,
                decreases n - i,
            {
                self.depth_buf[i] = DEPTH_INFINITY;
                i = i + 1;
            }
        }
        assert(self@.frame =~= old(self)@.cleared(buffers).frame);
        assert(self@.depth =~= old(self)@.cleared(buffers).depth);
    }

    /// The cell of pixel `(x, y)` in both buffers, if the pixel is on the
    /// canvas.
    pub fn get_index(&self, x: i64, y: i64) -> (i: Option<usize>)
        ensures
            self@.in_range(x as int, y as int) ==> (i matches Some(k) && k == self@.index_of(
                x as int,
                y as int,
            ) && k < self@.frame.len()),
            !self@.in_range(x as int, y as int) ==> i.is_none(),
            self@.wf(),
    {
        proof {
            use_type_invariant(self);
        }
        if x < 0 || y < 0 || x as i128 >= self.width as i128 || y as i128 >= self.height as i128 {
            return None;
        }
        proof {
            lemma_index_in_bounds(self@, x as int, y as int);
        }
        let col: usize = x as usize;
        let row: usize = self.height - (y as usize) - 1;
        let cells: usize = self.frame_buf.len();
        assert(0 <= row * self.width && row * self.width + self.width <= self.width * self.height)
            by (nonlinear_arith)
            requires
                0 <= row <= self.height - 1,
                0 <= self.width,
        ;
        assert(self.width * self.height == cells);
        Some(row * self.width + col)
    }

    /// Writes one pixel: see [`Surface::plot`].
    pub fn set_pixel(&mut self, point: &Pixel, color: &Vec3)
        ensures
            final(self)@ == old(self)@.plot(*point, *color),
            final(self)@.wf(),
    {
        proof {
            use_type_invariant(&*self);
        }
        match self.get_index(point.x, point.y) {
            None => {},
            Some(ind) => {
                if !self.depth_test {
                    self.frame_buf[ind] = *color;
                } else if self.depth_buf[ind] > point.depth as i64 {
                    self.frame_buf[ind] = *color;
                    self.depth_buf[ind] = point.depth as i64;
                }
            },
        }
    }
}

} // verus!
