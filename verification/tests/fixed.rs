use rasterizer::fixed::{
    channel_byte, diff_product, divide, from_int, fx_div, pixel_index, ratio, saturate, whole_part,
    wide_mul,
    CHANNEL_MAX, HALF, ONE,
};
use rasterizer::vector::{IndexTriple, Mat4, Vec2, Vec3, Vec4};

#[test]
fn fixed_constants_stand_for_one_half_and_255() {
    assert_eq!(ONE, 65536);
    assert_eq!(HALF * 2, ONE);
    assert_eq!(CHANNEL_MAX, 255 * ONE);
}

#[test]
fn saturate_limits_to_the_i32_range() {
    assert_eq!(saturate(5), 5);
    assert_eq!(saturate(-5), -5);
    assert_eq!(saturate(i32::MAX as i128), i32::MAX);
    assert_eq!(saturate(i32::MAX as i128 + 1), i32::MAX);
    assert_eq!(saturate(i32::MIN as i128), i32::MIN);
    assert_eq!(saturate(i32::MIN as i128 - 1), i32::MIN);
}

#[test]
fn divide_rounds_toward_zero_for_every_sign() {
    assert_eq!(divide(7, 2), 3);
    assert_eq!(divide(-7, 2), -3);
    assert_eq!(divide(7, -2), -3);
    assert_eq!(divide(-7, -2), 3);
    assert_eq!(divide(0, -2), 0);
}

#[test]
fn whole_part_rounds_toward_zero() {
    assert_eq!(whole_part(3 * ONE + 1), 3);
    assert_eq!(whole_part(3 * ONE - 1), 2);
    assert_eq!(whole_part(-HALF), 0);
    assert_eq!(whole_part(-ONE - HALF), -1);
    assert_eq!(whole_part(i32::MIN), -32768);
    assert_eq!(whole_part(i32::MAX), 32767);
}

#[test]
fn from_int_scales_by_one() {
    assert_eq!(from_int(3), 3 * ONE);
    assert_eq!(from_int(-2), -2 * ONE);
    assert_eq!(whole_part(from_int(-32768)), -32768);
}

#[test]
fn wide_products_are_exact() {
    assert_eq!(wide_mul(i32::MIN, i32::MIN), 1i64 << 62);
    assert_eq!(wide_mul(3, -4), -12);
    assert_eq!(diff_product(i32::MAX, i32::MIN, i32::MIN, i32::MAX), -((1i128 << 32) - 1) * ((1i128 << 32) - 1));
    assert_eq!(diff_product(5, 2, 7, 3), 12);
}

#[test]
fn fixed_division_rescales_and_saturates() {
    assert_eq!(fx_div(6 * ONE, 2 * ONE), 3 * ONE);
    assert_eq!(fx_div(ONE, 4 * ONE), ONE / 4);
    assert_eq!(fx_div(ONE, 3 * ONE), 21845);
    assert_eq!(fx_div(-ONE, 3 * ONE), -21845);
    assert_eq!(fx_div(ONE, -3 * ONE), -21845);
    assert_eq!(fx_div(30000 * ONE, HALF), i32::MAX);
    assert_eq!(fx_div(-30000 * ONE, HALF), i32::MIN);
}

#[test]
fn fixed_division_by_zero_saturates_by_sign() {
    assert_eq!(fx_div(5, 0), i32::MAX);
    assert_eq!(fx_div(-5, 0), i32::MIN);
    assert_eq!(fx_div(0, 0), 0);
}

#[test]
fn ratio_of_wide_integers_is_a_fixed_point_quotient() {
    assert_eq!(ratio(1, 2), HALF);
    assert_eq!(ratio(-1, 4), -ONE / 4);
    assert_eq!(ratio(1i128 << 70, 1i128 << 71), HALF);
    assert_eq!(ratio(3, 0), i32::MAX);
    assert_eq!(ratio(-3, 0), i32::MIN);
    assert_eq!(ratio(0, 0), 0);
    assert_eq!(ratio(1i128 << 70, 1), i32::MAX);
}

#[test]
fn vectors_default_to_zero() {
    assert_eq!(Vec2::default(), Vec2::new(0, 0));
    assert_eq!(Vec3::default(), Vec3::new(0, 0, 0));
    let t = IndexTriple::new(1, 2, 3);
    assert_eq!((t.i0, t.i1, t.i2), (1, 2, 3));
}

#[test]
fn dot_product_sums_before_it_rescales() {
    let a = Vec4::new(1, 1, 1, 1);
    let b = Vec4::new(HALF / 2, HALF / 2, HALF / 2, HALF / 2);
    // Each product is a quarter of a unit; the four together make one.
    assert_eq!(a.dot(&b), 1);
    let c = Vec4::new(2 * ONE, 3 * ONE, 0, -ONE);
    let d = Vec4::new(ONE, ONE, 9 * ONE, 4 * ONE);
    assert_eq!(c.dot(&d), ONE);
}

#[test]
fn identity_matrix_leaves_a_vector_as_it_is() {
    let v = Vec4::new(3 * ONE, -7 * ONE + 5, 123, ONE);
    assert_eq!(Mat4::identity().apply(&v), v);
}

#[test]
fn matrix_product_is_rows_against_columns() {
    let a = Mat4::new(
        Vec4::new(ONE, 2 * ONE, 0, 0),
        Vec4::new(0, ONE, 0, 0),
        Vec4::new(0, 0, ONE, 3 * ONE),
        Vec4::new(0, 0, 0, ONE),
    );
    let b = Mat4::new(
        Vec4::new(ONE, 0, 0, 5 * ONE),
        Vec4::new(4 * ONE, ONE, 0, 0),
        Vec4::new(0, 0, 2 * ONE, 0),
        Vec4::new(0, 0, 0, ONE),
    );
    let want = Mat4::new(
        Vec4::new(9 * ONE, 2 * ONE, 0, 5 * ONE),
        Vec4::new(4 * ONE, ONE, 0, 0),
        Vec4::new(0, 0, 2 * ONE, 3 * ONE),
        Vec4::new(0, 0, 0, ONE),
    );
    assert_eq!(a.times(&b), want);
    assert_eq!(a.times(&Mat4::identity()), a);
    assert_eq!(Mat4::identity().times(&b), b);
    let other = Mat4::new(
        Vec4::new(ONE, 2 * ONE, 0, 5 * ONE),
        Vec4::new(4 * ONE, 9 * ONE, 0, 0),
        Vec4::new(0, 0, 2 * ONE, 6 * ONE),
        Vec4::new(0, 0, 0, ONE),
    );
    assert_eq!(b.times(&a), other);
}

#[test]
fn channel_byte_is_the_whole_part_limited_to_a_byte() {
    assert_eq!(channel_byte(0), 0);
    assert_eq!(channel_byte(ONE - 1), 0);
    assert_eq!(channel_byte(217 * ONE), 217);
    assert_eq!(channel_byte(217 * ONE + HALF), 217);
    assert_eq!(channel_byte(CHANNEL_MAX), 255);
    assert_eq!(channel_byte(CHANNEL_MAX + 1), 255);
    assert_eq!(channel_byte(i32::MAX), 255);
    assert_eq!(channel_byte(-1), 0);
    assert_eq!(channel_byte(i32::MIN), 0);
}

#[test]
fn pixel_index_rounds_down() {
    assert_eq!(pixel_index(0), 0);
    assert_eq!(pixel_index(ONE - 1), 0);
    assert_eq!(pixel_index(ONE), 1);
    assert_eq!(pixel_index(13 * ONE + 65011), 13);
    assert_eq!(pixel_index(-1), -1);
    assert_eq!(pixel_index(-ONE), -1);
    assert_eq!(pixel_index(-ONE - 1), -2);
    assert_eq!(pixel_index(i32::MIN), -32768);
    assert_eq!(pixel_index(i32::MAX), 32767);
}
