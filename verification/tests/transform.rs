use rasterizer::fixed::{HALF, ONE};
use rasterizer::transform::{
    map_to_depth, map_to_viewport, ScreenVertex, TransformPipeline, DEFAULT_Z_FAR, DEFAULT_Z_NEAR,
};
use rasterizer::vector::{Mat4, Vec3, Vec4};

fn perspective() -> Mat4 {
    // Field of view 45 degrees, aspect 1, near 0.1, far 50.
    Mat4::new(
        Vec4::new(158218, 0, 0, 0),
        Vec4::new(0, 158218, 0, 0),
        Vec4::new(0, 0, -65799, -13133),
        Vec4::new(0, 0, -65536, 0),
    )
}

fn quarter_turn() -> Mat4 {
    Mat4::new(
        Vec4::new(0, -ONE, 0, 0),
        Vec4::new(ONE, 0, 0, 0),
        Vec4::new(0, 0, ONE, 0),
        Vec4::new(0, 0, 0, ONE),
    )
}

fn back_by_five() -> Mat4 {
    Mat4::new(
        Vec4::new(ONE, 0, 0, 0),
        Vec4::new(0, ONE, 0, 0),
        Vec4::new(0, 0, ONE, -5 * ONE),
        Vec4::new(0, 0, 0, ONE),
    )
}

#[test]
fn new_pipeline_is_the_identity_with_the_default_depth_range() {
    let p = TransformPipeline::new();
    assert_eq!(p.model, Mat4::identity());
    assert_eq!(p.view, Mat4::identity());
    assert_eq!(p.projection, Mat4::identity());
    assert_eq!(p.z_near, DEFAULT_Z_NEAR);
    assert_eq!(p.z_far, DEFAULT_Z_FAR);
    assert_eq!(p.mvp(), Mat4::identity());
    assert_eq!((DEFAULT_Z_NEAR, DEFAULT_Z_FAR), (6554, 100 * ONE));
}

#[test]
fn viewport_maps_minus_one_to_zero_and_one_to_the_extent() {
    assert_eq!(map_to_viewport(-ONE, 700), 0);
    assert_eq!(map_to_viewport(ONE, 700), 700 * ONE);
    assert_eq!(map_to_viewport(0, 700), 350 * ONE);
    assert_eq!(map_to_viewport(0, 701), 22970368);
    assert_eq!(map_to_viewport(-3 * ONE, 10), -10 * ONE);
}

#[test]
fn viewport_saturates() {
    assert_eq!(map_to_viewport(i32::MAX, 1usize << 40), i32::MAX);
    assert_eq!(map_to_viewport(i32::MIN, 1usize << 40), i32::MIN);
    assert_eq!(map_to_viewport(i32::MAX, usize::MAX), i32::MAX);
    assert_eq!(map_to_viewport(i32::MAX, 0), 0);
}

#[test]
fn depth_remap_maps_minus_one_to_near_and_one_to_far() {
    assert_eq!(map_to_depth(-ONE, DEFAULT_Z_NEAR, DEFAULT_Z_FAR), 6554);
    assert_eq!(map_to_depth(ONE, DEFAULT_Z_NEAR, DEFAULT_Z_FAR), 6553600);
    assert_eq!(map_to_depth(0, DEFAULT_Z_NEAR, DEFAULT_Z_FAR), 3280077);
    // 0.5 * (3 - 1) / 2 + (3 + 1) / 2 = 2.5
    assert_eq!(map_to_depth(HALF, ONE, 3 * ONE), 163840);
}

#[test]
fn depth_remap_saturates() {
    assert_eq!(map_to_depth(i32::MAX, i32::MIN, i32::MAX), i32::MAX);
    assert_eq!(map_to_depth(i32::MAX, 0, i32::MAX), i32::MAX);
    assert_eq!(map_to_depth(i32::MIN, 0, i32::MAX), i32::MIN);
}

#[test]
fn identity_pipeline_projects_the_unit_square_onto_the_viewport() {
    let p = TransformPipeline::new();
    let m = p.mvp();
    assert_eq!(
        p.project(&m, &Vec3::new(0, 0, 0), 700, 700),
        ScreenVertex { position: Vec3::new(350 * ONE, 350 * ONE, 3280077), w: ONE }
    );
    assert_eq!(
        p.project(&m, &Vec3::new(ONE, -ONE, ONE), 700, 500),
        ScreenVertex { position: Vec3::new(700 * ONE, 0, 6553600), w: ONE }
    );
    assert_eq!(
        p.project(&m, &Vec3::new(-ONE, ONE, -ONE), 700, 500),
        ScreenVertex { position: Vec3::new(0, 500 * ONE, 6554), w: ONE }
    );
    assert_eq!(
        p.project(&m, &Vec3::new(HALF, HALF / 2, 0), 3, 5),
        ScreenVertex { position: Vec3::new(147456, 204800, 3280077), w: ONE }
    );
}

#[test]
fn composed_matrix_is_projection_times_view_times_model() {
    let p = TransformPipeline {
        model: quarter_turn(),
        view: back_by_five(),
        projection: perspective(),
        z_near: 6554,
        z_far: 50 * ONE,
    };
    let want = Mat4::new(
        Vec4::new(0, -158218, 0, 0),
        Vec4::new(158218, 0, 0, 0),
        Vec4::new(0, 0, -65799, 315862),
        Vec4::new(0, 0, -65536, 327680),
    );
    assert_eq!(p.mvp(), want);
    assert_eq!(p.mvp(), perspective().times(&back_by_five()).times(&quarter_turn()));
}

#[test]
fn perspective_pipeline_divides_by_w_and_keeps_it() {
    let p = TransformPipeline {
        model: quarter_turn(),
        view: back_by_five(),
        projection: perspective(),
        z_near: 6554,
        z_far: 50 * ONE,
    };
    let m = p.mvp();
    assert_eq!(
        p.project(&m, &Vec3::new(2 * ONE, 0, -2 * ONE), 700, 700),
        ScreenVertex { position: Vec3::new(22937600, 38759350, 3236530), w: 458752 }
    );
    assert_eq!(
        p.project(&m, &Vec3::new(0, 2 * ONE, -2 * ONE), 700, 700),
        ScreenVertex { position: Vec3::new(7115850, 22937600, 3236530), w: 458752 }
    );
    assert_eq!(
        p.project(&m, &Vec3::new(-ONE, HALF, -5 * ONE), 700, 700),
        ScreenVertex { position: Vec3::new(20169100, 17400250, 3250577), w: 655360 }
    );
}

#[test]
fn vertex_with_zero_w_saturates_by_sign() {
    let mut p = TransformPipeline::new();
    p.projection = Mat4::new(
        Vec4::new(ONE, 0, 0, 0),
        Vec4::new(0, ONE, 0, 0),
        Vec4::new(0, 0, ONE, 0),
        Vec4::new(0, 0, 0, 0),
    );
    let m = p.mvp();
    assert_eq!(
        p.project(&m, &Vec3::new(ONE, -ONE, 0), 700, 700),
        ScreenVertex { position: Vec3::new(i32::MAX, i32::MIN, 3280077), w: 0 }
    );
}
