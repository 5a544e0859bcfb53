//! One triangle in screen space, with its per-vertex attributes.
//!
//! A point is inside the triangle when it lies strictly on the inner side of
//! each of the edges v0-v1, v1-v2 and v2-v0. The inner side is fixed by the
//! winding: a triangle whose vertices run counter-clockwise on a y-up screen
//! has an interior, one wound the other way has none.

use vstd::prelude::*;
use crate::error::RasterError;
use crate::fixed::{diff_product, CHANNEL_MAX, ONE};
use crate::vector::{Vec2, Vec3, Vec4};

verus! {

/// The z component of the cross product of the edge vector `a - b` with the
/// vector from `b` to the point `(x, y)`.
pub open spec fn edge(a: Vec3, b: Vec3, x: int, y: int) -> int {
    (a.x - b.x) * (y - b.y) - (a.y - b.y) * (x - b.x)
}

/// Whether `(x, y)` lies strictly inside the triangle `v0, v1, v2`.
pub open spec fn inside(v0: Vec3, v1: Vec3, v2: Vec3, x: int, y: int) -> bool {
    &&& edge(v0, v1, x, y) < 0
    &&& edge(v1, v2, x, y) < 0
    &&& edge(v2, v0, x, y) < 0
}

/// Whether `c` is a color channel: between 0 and 255.
pub open spec fn channel_ok(c: int) -> bool {
    0 <= c <= CHANNEL_MAX
}

/// The mathematical content of a triangle: what each of its three slots
/// holds.
pub struct TriangleView {
    /// Screen-space positions: x and y in pixels, z the depth.
    pub v: Seq<Vec3>,
    pub color: Seq<Vec3>,
    pub tex_coords: Seq<Vec2>,
    pub normal: Seq<Vec3>,
    /// The clip-space w of each vertex, from before the perspective divide.
    pub w: Seq<i32>,
}

impl TriangleView {
    /// Every attribute has its three slots.
    pub open spec fn wf(self) -> bool {
        &&& self.v.len() == 3
        &&& self.color.len() == 3
        &&& self.tex_coords.len() == 3
        &&& self.normal.len() == 3
        &&& self.w.len() == 3
    }

    /// Whether the point `(x, y)` lies strictly inside.
    pub open spec fn contains(self, x: int, y: int) -> bool {
        inside(self.v[0], self.v[1], self.v[2], x, y)
    }

    /// The three vertices as homogeneous coordinates: each position with
    /// its clip-space w.
    pub open spec fn homogeneous(self) -> Seq<Vec4> {
        Seq::new(
            3,
            |i: int| Vec4 { x: self.v[i].x, y: self.v[i].y, z: self.v[i].z, w: self.w[i] },
        )
    }

    /// The triangle whose slots all hold zero, with unit clip-space w.
    pub open spec fn blank() -> TriangleView {
        TriangleView {
            v: Seq::new(3, |i: int| Vec3::zero()),
            color: Seq::new(3, |i: int| Vec3::zero()),
            tex_coords: Seq::new(3, |i: int| Vec2 { x: 0, y: 0 }),
            normal: Seq::new(3, |i: int| Vec3::zero()),
            w: Seq::new(3, |i: int| ONE),
        }
    }
}

/// A triangle mid-rasterization.
pub struct Triangle {
    v: [Vec3; 3],
    color: [Vec3; 3],
    tex_coords: [Vec2; 3],
    normal: [Vec3; 3],
    w: [i32; 3],
}

impl View for Triangle {
    type V = TriangleView;

    closed spec fn view(&self) -> TriangleView {
        TriangleView {
            v: self.v@,
            color: self.color@,
            tex_coords: self.tex_coords@,
            normal: self.normal@,
            w: self.w@,
        }
    }
}

/// The edge function of `a`, `b` at `(x, y)`.
pub fn edge_value(a: &Vec3, b: &Vec3, x: i32, y: i32) -> (e: i128)
    ensures
        e == edge(*a, *b, x as int, y as int),
        -0x2_0000_0000_0000_0000 <= e <= 0x2_0000_0000_0000_0000,
{
    diff_product(a.x, b.x, y, b.y) - diff_product(a.y, b.y, x, b.x)
}

impl Triangle {
    /// A triangle whose slots all hold zero.
    pub fn default() -> (t: Self)
        ensures
            t@ == TriangleView::blank(),
            t@.wf(),
    {
        let z3 = Vec3 { x: 0, y: 0, z: 0 };
        let z2 = Vec2 { x: 0, y: 0 };
        let t = Triangle {
            v: [z3, z3, z3],
            color: [z3, z3, z3],
            tex_coords: [z2, z2, z2],
            normal: [z3, z3, z3],
            w: [ONE, ONE, ONE],
        };
        assert(t@.v =~= TriangleView::blank().v);
        assert(t@.color =~= TriangleView::blank().color);
        assert(t@.tex_coords =~= TriangleView::blank().tex_coords);
        assert(t@.normal =~= TriangleView::blank().normal);
        assert(t@.w =~= TriangleView::blank().w);
        t
    }

    /// The first vertex.
    pub fn a(&self) -> (p: &Vec3)
        ensures
            *p == self@.v[0],
            self@.wf(),
    {
        &self.v[0]
    }

    /// The second vertex.
    pub fn b(&self) -> (p: &Vec3)
        ensures
            *p == self@.v[1],
            self@.wf(),
    {
        &self.v[1]
    }

    /// The third vertex.
    pub fn c(&self) -> (p: &Vec3)
        ensures
            *p == self@.v[2],
            self@.wf(),
    {
        &self.v[2]
    }

    /// The three vertices.
    pub fn v(&self) -> (p: &[Vec3; 3])
        ensures
            p@ == self@.v,
            self@.wf(),
    {
        &self.v
    }

    /// The three colors.
    pub fn colors(&self) -> (p: &[Vec3; 3])
        ensures
            p@ == self@.color,
            self@.wf(),
    {
        &self.color
    }

    /// Whether the point `(x, y)`, in fixed-point pixel coordinates, lies
    /// strictly inside the triangle. A point on an edge is outside.
    pub fn contains(&self, x: i32, y: i32) -> (r: bool)
        ensures
            r == self@.contains(x as int, y as int),
    {
        let e0 = edge_value(&self.v[0], &self.v[1], x, y);
        let e1 = edge_value(&self.v[1], &self.v[2], x, y);
        let e2 = edge_value(&self.v[2], &self.v[0], x, y);
        e0 < 0 && e1 < 0 && e2 < 0
    }

    /// Whether `ind` names one of the three slots.
    pub fn check_ind(&self, ind: usize) -> (r: Result<(), RasterError>)
        ensures
            ind < 3 ==> r == Ok::<(), RasterError>(()),
            ind >= 3 ==> r == Err::<(), RasterError>(RasterError::InvalidIndex),
    {
        if ind > 2 {
            return Err(RasterError::InvalidIndex);
        }
        Ok(())
    }

    /// Puts `ver` in vertex slot `ind`.
    pub fn set_vertex(&mut self, ind: usize, ver: Vec3) -> (r: Result<(), RasterError>)
        ensures
            ind < 3 ==> r == Ok::<(), RasterError>(()) && final(self)@ == (TriangleView {
                v: old(self)@.v.update(ind as int, ver),
                ..old(self)@
            }),
            ind >= 3 ==> r == Err::<(), RasterError>(RasterError::InvalidIndex) && final(self)@
                == old(self)@,
            final(self)@.wf(),
    {
        if ind > 2 {
            return Err(RasterError::InvalidIndex);
        }
        self.v[ind] = ver;
        Ok(())
    }

    /// Puts `n` in normal slot `ind`.
    pub fn set_normal(&mut self, ind: usize, n: Vec3) -> (r: Result<(), RasterError>)
        ensures
            ind < 3 ==> r == Ok::<(), RasterError>(()) && final(self)@ == (TriangleView {
                normal: old(self)@.normal.update(ind as int, n),
                ..old(self)@
            }),
            ind >= 3 ==> r == Err::<(), RasterError>(RasterError::InvalidIndex) && final(self)@
                == old(self)@,
            final(self)@.wf(),
    {
        if ind > 2 {
            return Err(RasterError::InvalidIndex);
        }
        self.normal[ind] = n;
        Ok(())
    }

    /// Puts the color `(r, g, b)` in color slot `ind`. Each channel must lie
    /// between 0 and 255; the channels are checked before the slot is.
    pub fn set_color(&mut self, ind: usize, r: i32, g: i32, b: i32) -> (res: Result<
        (),
        RasterError,
    >)
        ensures
            !(channel_ok(r as int) && channel_ok(g as int) && channel_ok(b as int)) ==> res == Err::<
                (),
                RasterError,
            >(RasterError::InvalidColorValue) && final(self)@ == old(self)@,
            channel_ok(r as int) && channel_ok(g as int) && channel_ok(b as int) && ind >= 3 ==> res
                == Err::<(), RasterError>(RasterError::InvalidIndex) && final(self)@ == old(self)@,
            channel_ok(r as int) && channel_ok(g as int) && channel_ok(b as int) && ind < 3 ==> res
                == Ok::<(), RasterError>(()) && final(self)@ == (TriangleView {
                color: old(self)@.color.update(ind as int, Vec3 { x: r, y: g, z: b }),
                ..old(self)@
            }),
            final(self)@.wf(),
    {
        if r < 0 || r > CHANNEL_MAX || g < 0 || g > CHANNEL_MAX || b < 0 || b > CHANNEL_MAX {
            return Err(RasterError::InvalidColorValue);
        }
        if ind > 2 {
            return Err(RasterError::InvalidIndex);
        }
        self.color[ind] = Vec3 { x: r, y: g, z: b };
        Ok(())
    }

    /// The color the triangle is filled with when vertex colors are not
    /// blended: that of slot 0.
    pub fn get_color(&self) -> (c: Vec3)
        ensures
            c == self@.color[0],
    {
        self.color[0]
    }

    /// Puts the texture coordinate `(s, t)` in slot `ind`.
    pub fn set_tex_coord(&mut self, ind: usize, s: i32, t: i32) -> (r: Result<(), RasterError>)
        ensures
            ind < 3 ==> r == Ok::<(), RasterError>(()) && final(self)@ == (TriangleView {
                tex_coords: old(self)@.tex_coords.update(ind as int, Vec2 { x: s, y: t }),
                ..old(self)@
            }),
            ind >= 3 ==> r == Err::<(), RasterError>(RasterError::InvalidIndex) && final(self)@
                == old(self)@,
            final(self)@.wf(),
    {
        if ind > 2 {
            return Err(RasterError::InvalidIndex);
        }
        self.tex_coords[ind] = Vec2 { x: s, y: t };
        Ok(())
    }

    /// Records the clip-space w of the vertex in slot `ind`.
    pub fn set_w(&mut self, ind: usize, w: i32) -> (r: Result<(), RasterError>)
        ensures
            ind < 3 ==> r == Ok::<(), RasterError>(()) && final(self)@ == (TriangleView {
                w: old(self)@.w.update(ind as int, w),
                ..old(self)@
            }),
            ind >= 3 ==> r == Err::<(), RasterError>(RasterError::InvalidIndex) && final(self)@
                == old(self)@,
            final(self)@.wf(),
    {
        if ind > 2 {
            return Err(RasterError::InvalidIndex);
        }
        self.w[ind] = w;
        Ok(())
    }

    /// The three vertices as homogeneous coordinates: each position with
    /// its clip-space w.
    pub fn to_vector4(&self) -> (r: Vec<Vec4>)
        ensures
            r@ == self@.homogeneous(),
    {
        let mut r: Vec<Vec4> = Vec::new();
        r.push(Vec4 { x: self.v[0].x, y: self.v[0].y, z: self.v[0].z, w: self.w[0] });
        r.push(Vec4 { x: self.v[1].x, y: self.v[1].y, z: self.v[1].z, w: self.w[1] });
        r.push(Vec4 { x: self.v[2].x, y: self.v[2].y, z: self.v[2].z, w: self.w[2] });
        assert(r@ =~= self@.homogeneous());
        r
    }
}

} // verus!
