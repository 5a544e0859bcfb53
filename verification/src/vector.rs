//! Small fixed-size vectors and the 4x4 matrix of the transform pipeline.
//! Every component is a Q16.16 fixed-point scalar.

use vstd::prelude::*;
use crate::fixed::{clamp, div_trunc, saturate, wide_mul, ONE};

verus! {

/// A pair of scalars, used for texture coordinates.
#[derive(Clone, Copy, PartialEq, Eq, Structural, Debug)]
pub struct Vec2 {
    pub x: i32,
    pub y: i32,
}

/// A triple of scalars: a position, a normal or a color.
#[derive(Clone, Copy, PartialEq, Eq, Structural, Debug)]
pub struct Vec3 {
    pub x: i32,
    pub y: i32,
    pub z: i32,
}

/// A homogeneous coordinate.
#[derive(Clone, Copy, PartialEq, Eq, Structural, Debug)]
pub struct Vec4 {
    pub x: i32,
    pub y: i32,
    pub z: i32,
    pub w: i32,
}

/// Three vertex references of one triangle, as offsets into a position
/// buffer and a color buffer.
#[derive(Clone, Copy, PartialEq, Eq, Structural, Debug)]
pub struct IndexTriple {
    pub i0: i32,
    pub i1: i32,
    pub i2: i32,
}

/// A 4x4 matrix, held by rows.
#[derive(Clone, Copy, PartialEq, Eq, Structural, Debug)]
pub struct Mat4 {
    pub r0: Vec4,
    pub r1: Vec4,
    pub r2: Vec4,
    pub r3: Vec4,
}

impl Vec2 {
    pub fn new(x: i32, y: i32) -> (v: Self)
        ensures
            v == (Vec2 { x, y }),
    {
        Vec2 { x, y }
    }
}

impl Default for Vec2 {
    fn default() -> (v: Self)
        ensures
            v == (Vec2 { x: 0, y: 0 }),
    {
        Vec2 { x: 0, y: 0 }
    }
}

impl Vec3 {
    /// The vector whose components are all zero.
    pub open spec fn zero() -> Vec3 {
        Vec3 { x: 0, y: 0, z: 0 }
    }

    pub fn new(x: i32, y: i32, z: i32) -> (v: Self)
        ensures
            v == (Vec3 { x, y, z }),
    {
        Vec3 { x, y, z }
    }
}

impl Default for Vec3 {
    fn default() -> (v: Self)
        ensures
            v == Vec3::zero(),
    {
        Vec3 { x: 0, y: 0, z: 0 }
    }
}

impl Vec4 {
    pub fn new(x: i32, y: i32, z: i32, w: i32) -> (v: Self)
        ensures
            v == (Vec4 { x, y, z, w }),
    {
        Vec4 { x, y, z, w }
    }

    /// The fixed-point dot product: the exact sum of the four products,
    /// rescaled with rounding toward zero and saturated.
    pub open spec fn dot_spec(self, o: Vec4) -> int {
        clamp(div_trunc(self.x * o.x + self.y * o.y + self.z * o.z + self.w * o.w, ONE as int))
    }

    pub fn dot(&self, o: &Vec4) -> (d: i32)
        ensures
            d == self.dot_spec(*o),
    {
        let s: i128 = wide_mul(self.x, o.x) as i128 + wide_mul(self.y, o.y) as i128 + wide_mul(
            self.z,
            o.z,
        ) as i128 + wide_mul(self.w, o.w) as i128;
        saturate(s / 65536)
    }
}

impl IndexTriple {
    pub fn new(i0: i32, i1: i32, i2: i32) -> (t: Self)
        ensures
            t == (IndexTriple { i0, i1, i2 }),
    {
        IndexTriple { i0, i1, i2 }
    }
}

impl Mat4 {
    /// The identity matrix.
    pub open spec fn identity_spec() -> Mat4 {
        Mat4 {
            r0: Vec4 { x: ONE, y: 0, z: 0, w: 0 },
            r1: Vec4 { x: 0, y: ONE, z: 0, w: 0 },
            r2: Vec4 { x: 0, y: 0, z: ONE, w: 0 },
            r3: Vec4 { x: 0, y: 0, z: 0, w: ONE },
        }
    }

    /// A matrix from its four rows.
    pub fn new(r0: Vec4, r1: Vec4, r2: Vec4, r3: Vec4) -> (m: Self)
        ensures
            m == (Mat4 { r0, r1, r2, r3 }),
    {
        Mat4 { r0, r1, r2, r3 }
    }

    pub fn identity() -> (m: Self)
        ensures
            m == Mat4::identity_spec(),
    {
        Mat4 {
            r0: Vec4 { x: ONE, y: 0, z: 0, w: 0 },
            r1: Vec4 { x: 0, y: ONE, z: 0, w: 0 },
            r2: Vec4 { x: 0, y: 0, z: ONE, w: 0 },
            r3: Vec4 { x: 0, y: 0, z: 0, w: ONE },
        }
    }

    /// The first column.
    pub open spec fn col_x(self) -> Vec4 {
        Vec4 { x: self.r0.x, y: self.r1.x, z: self.r2.x, w: self.r3.x }
    }

    /// The second column.
    pub open spec fn col_y(self) -> Vec4 {
        Vec4 { x: self.r0.y, y: self.r1.y, z: self.r2.y, w: self.r3.y }
    }

    /// The third column.
    pub open spec fn col_z(self) -> Vec4 {
        Vec4 { x: self.r0.z, y: self.r1.z, z: self.r2.z, w: self.r3.z }
    }

    /// The fourth column.
    pub open spec fn col_w(self) -> Vec4 {
        Vec4 { x: self.r0.w, y: self.r1.w, z: self.r2.w, w: self.r3.w }
    }

    /// The product of this matrix with a column vector.
    pub open spec fn apply_spec(self, v: Vec4) -> Vec4 {
        Vec4 {
            x: self.r0.dot_spec(v) as i32,
            y: self.r1.dot_spec(v) as i32,
            z: self.r2.dot_spec(v) as i32,
            w: self.r3.dot_spec(v) as i32,
        }
    }

    /// One row of a matrix product: `row` against each column of `o`.
    pub open spec fn row_times(row: Vec4, o: Mat4) -> Vec4 {
        Vec4 {
            x: row.dot_spec(o.col_x()) as i32,
            y: row.dot_spec(o.col_y()) as i32,
            z: row.dot_spec(o.col_z()) as i32,
            w: row.dot_spec(o.col_w()) as i32,
        }
    }

    /// The matrix product `self * o`.
    pub open spec fn times_spec(self, o: Mat4) -> Mat4 {
        Mat4 {
            r0: Mat4::row_times(self.r0, o),
            r1: Mat4::row_times(self.r1, o),
            r2: Mat4::row_times(self.r2, o),
            r3: Mat4::row_times(self.r3, o),
        }
    }

    pub fn apply(&self, v: &Vec4) -> (r: Vec4)
        ensures
            r == self.apply_spec(*v),
    {
        Vec4 { x: self.r0.dot(v), y: self.r1.dot(v), z: self.r2.dot(v), w: self.r3.dot(v) }
    }

    fn row_product(row: &Vec4, o: &Mat4) -> (r: Vec4)
        ensures
            r == Mat4::row_times(*row, *o),
    {
        let cx = Vec4 { x: o.r0.x, y: o.r1.x, z: o.r2.x, w: o.r3.x };
        let cy = Vec4 { x: o.r0.y, y: o.r1.y, z: o.r2.y, w: o.r3.y };
        let cz = Vec4 { x: o.r0.z, y: o.r1.z, z: o.r2.z, w: o.r3.z };
        let cw = Vec4 { x: o.r0.w, y: o.r1.w, z: o.r2.w, w: o.r3.w };
        Vec4 { x: row.dot(&cx), y: row.dot(&cy), z: row.dot(&cz), w: row.dot(&cw) }
    }

    pub fn times(&self, o: &Mat4) -> (m: Mat4)
        ensures
            m == self.times_spec(*o),
    {
        Mat4 {
            r0: Mat4::row_product(&self.r0, o),
            r1: Mat4::row_product(&self.r1, o),
            r2: Mat4::row_product(&self.r2, o),
            r3: Mat4::row_product(&self.r3, o),
        }
    }
}

} // verus!
