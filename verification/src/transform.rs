//! The vertex transform: object space to clip space by the composed
//! model-view-projection matrix, to normalized device coordinates by the
//! perspective divide, and to pixel space and remapped depth by the
//! viewport mapping.

use vstd::prelude::*;
use crate::fixed::{clamp, div_trunc, fx_div, fx_div_spec, saturate, ONE};
use crate::vector::{Mat4, Vec3, Vec4};

verus! {

/// The near plane that a new pipeline remaps depth against: 0.1.
pub const DEFAULT_Z_NEAR: i32 = 6554;

/// The far plane that a new pipeline remaps depth against: 100.
pub const DEFAULT_Z_FAR: i32 = 6553600;

/// A vertex after the transform: its position in pixel space with its
/// remapped depth, and the clip-space w it had before the perspective
/// divide.
#[derive(Clone, Copy, PartialEq, Eq, Structural, Debug)]
pub struct ScreenVertex {
    pub position: Vec3,
    pub w: i32,
}

/// The three matrices of the transform and the depth range that the
/// remapped depth spans. Each may be set on its own at any time; the
/// composed matrix is formed anew whenever it is used.
#[derive(Clone, Copy, PartialEq, Eq, Structural, Debug)]
pub struct TransformPipeline {
    pub model: Mat4,
    pub view: Mat4,
    pub projection: Mat4,
    pub z_near: i32,
    pub z_far: i32,
}

/// A clip-space coordinate with every component divided by its w.
pub open spec fn perspective_divide(c: Vec4) -> Vec4 {
    Vec4 {
        x: fx_div_spec(c.x as int, c.w as int) as i32,
        y: fx_div_spec(c.y as int, c.w as int) as i32,
        z: fx_div_spec(c.z as int, c.w as int) as i32,
        w: fx_div_spec(c.w as int, c.w as int) as i32,
    }
}

/// A normalized device coordinate mapped onto `extent` pixels: -1 goes to
/// 0, and 1 to `extent`.
pub open spec fn viewport(ndc: int, extent: int) -> int {
    clamp(div_trunc(extent * (ndc + ONE), 2))
}

/// A normalized device depth mapped onto the depth range: -1 goes to
/// `z_near`, and 1 to `z_far`.
pub open spec fn remap_depth(ndc_z: int, z_near: int, z_far: int) -> int {
    clamp(div_trunc(ndc_z * div_trunc(z_far - z_near, 2), ONE as int) + div_trunc(z_far + z_near, 2))
}

impl TransformPipeline {
    /// The pipeline with three identity matrices and the default depth
    /// range.
    pub open spec fn identity_spec() -> TransformPipeline {
        TransformPipeline {
            model: Mat4::identity_spec(),
            view: Mat4::identity_spec(),
            projection: Mat4::identity_spec(),
            z_near: DEFAULT_Z_NEAR,
            z_far: DEFAULT_Z_FAR,
        }
    }

    /// The composed matrix: projection times view times model.
    pub open spec fn mvp_spec(self) -> Mat4 {
        self.projection.times_spec(self.view).times_spec(self.model)
    }

    /// The object-space position `p` carried to a `width` by `height`
    /// viewport.
    pub open spec fn project_spec(self, p: Vec3, width: int, height: int) -> ScreenVertex {
        let clip = self.mvp_spec().apply_spec(Vec4 { x: p.x, y: p.y, z: p.z, w: ONE });
        let ndc = perspective_divide(clip);
        ScreenVertex {
            position: Vec3 {
                x: viewport(ndc.x as int, width) as i32,
                y: viewport(ndc.y as int, height) as i32,
                z: remap_depth(ndc.z as int, self.z_near as int, self.z_far as int) as i32,
            },
            w: clip.w,
        }
    }

    pub fn new() -> (p: Self)
        ensures
            p == TransformPipeline::identity_spec(),
    {
        TransformPipeline {
            model: Mat4::identity(),
            view: Mat4::identity(),
            projection: Mat4::identity(),
            z_near: DEFAULT_Z_NEAR,
            z_far: DEFAULT_Z_FAR,
        }
    }

    /// The composed matrix.
    pub fn mvp(&self) -> (m: Mat4)
        ensures
            m == self.mvp_spec(),
    {
        self.projection.times(&self.view).times(&self.model)
    }

    /// Carries the object-space position `p` to a `width` by `height`
    /// viewport through the composed matrix `mvp`.
    pub fn project(&self, mvp: &Mat4, p: &Vec3, width: usize, height: usize) -> (s: ScreenVertex)
        requires
            *mvp == self.mvp_spec(),
        ensures
            s == self.project_spec(*p, width as int, height as int),
    {
        let clip = mvp.apply(&Vec4 { x: p.x, y: p.y, z: p.z, w: ONE });
        let ndc_x = fx_div(clip.x, clip.w);
        let ndc_y = fx_div(clip.y, clip.w);
        let ndc_z = fx_div(clip.z, clip.w);
        ScreenVertex {
            position: Vec3 {
                x: map_to_viewport(ndc_x, width),
                y: map_to_viewport(ndc_y, height),
                z: map_to_depth(ndc_z, self.z_near, self.z_far),
            },
            w: clip.w,
        }
    }
}

/// The viewport mapping along one axis.
pub fn map_to_viewport(ndc: i32, extent: usize) -> (s: i32)
    ensures
        s == viewport(ndc as int, extent as int),
{
    let shifted: i128 = ndc as i128 + 65536;
    let e: i128 = extent as i128;
    assert(-0x1_0000_0000_0000_0000_0000_0000 <= e * shifted <= 0x1_0000_0000_0000_0000_0000_0000)
        by (nonlinear_arith)
        requires
            0 <= e <= 0x1_0000_0000_0000_0000,
            -0x1_0000_0000 <= shifted <= 0x1_0000_0000,
    ;
    saturate((e * shifted) / 2)
}

/// The depth remap.
pub fn map_to_depth(ndc_z: i32, z_near: i32, z_far: i32) -> (s: i32)
    ensures
        s == remap_depth(ndc_z as int, z_near as int, z_far as int),
{
    let f1: i128 = (z_far as i128 - z_near as i128) / 2;
    let f2: i128 = (z_far as i128 + z_near as i128) / 2;
    let z: i128 = ndc_z as i128;
    assert(-0x1_0000_0000_0000_0000 <= z * f1 <= 0x1_0000_0000_0000_0000) by (nonlinear_arith)
        requires
            -0x1_0000_0000 <= z <= 0x1_0000_0000,
            -0x1_0000_0000 <= f1 <= 0x1_0000_0000,
    ;
    saturate((z * f1) / 65536 + f2)
}

} // verus!
