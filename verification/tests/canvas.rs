use rasterizer::buffers::Buffers;
use rasterizer::canvas::{Canvas, Pixel, DEPTH_INFINITY};
use rasterizer::fixed::ONE;
use rasterizer::vector::Vec3;

const RED: Vec3 = Vec3 { x: 255 * ONE, y: 0, z: 0 };
const GREEN: Vec3 = Vec3 { x: 0, y: 255 * ONE, z: 0 };
const BLACK: Vec3 = Vec3 { x: 0, y: 0, z: 0 };

fn px(x: i64, y: i64, depth: i32) -> Pixel {
    Pixel { x, y, depth }
}

#[test]
fn new_canvas_is_black_and_infinitely_deep() {
    let c = Canvas::new(3, 2);
    assert_eq!(c.width(), 3);
    assert_eq!(c.height(), 2);
    assert!(c.depth_test());
    assert_eq!(*c.framebuffer(), vec![BLACK; 6]);
    assert_eq!(*c.depthbuffer(), vec![DEPTH_INFINITY; 6]);
}

#[test]
fn canvas_of_no_pixels_discards_every_write() {
    let mut c = Canvas::new(0, 5);
    c.set_pixel(&px(0, 0, 0), &RED);
    assert!(c.framebuffer().is_empty());
    assert!(c.depthbuffer().is_empty());
    assert_eq!(c.get_index(0, 0), None);
}

#[test]
fn rows_are_stored_top_scanline_first() {
    let c = Canvas::new(4, 3);
    assert_eq!(c.get_index(0, 0), Some(8));
    assert_eq!(c.get_index(3, 0), Some(11));
    assert_eq!(c.get_index(0, 2), Some(0));
    assert_eq!(c.get_index(2, 1), Some(6));
    assert_eq!(c.get_index(3, 2), Some(3));
}

#[test]
fn pixels_off_the_canvas_have_no_index() {
    let c = Canvas::new(4, 3);
    assert_eq!(c.get_index(4, 0), None);
    assert_eq!(c.get_index(0, 3), None);
    assert_eq!(c.get_index(-1, 0), None);
    assert_eq!(c.get_index(0, -1), None);
    assert_eq!(c.get_index(i64::MAX, i64::MAX), None);
    assert_eq!(c.get_index(i64::MIN, i64::MIN), None);
}

#[test]
fn set_pixel_writes_color_and_depth_to_the_flipped_row() {
    let mut c = Canvas::new(4, 3);
    c.set_pixel(&px(1, 0, 7), &RED);
    let mut frame = vec![BLACK; 12];
    let mut depth = vec![DEPTH_INFINITY; 12];
    frame[9] = RED;
    depth[9] = 7;
    assert_eq!(*c.framebuffer(), frame);
    assert_eq!(*c.depthbuffer(), depth);
}

#[test]
fn set_pixel_discards_writes_off_the_canvas() {
    let mut c = Canvas::new(4, 3);
    c.set_pixel(&px(4, 0, 0), &RED);
    c.set_pixel(&px(0, 3, 0), &RED);
    c.set_pixel(&px(-1, 1, 0), &RED);
    c.set_pixel(&px(1, -1, 0), &RED);
    assert_eq!(*c.framebuffer(), vec![BLACK; 12]);
    assert_eq!(*c.depthbuffer(), vec![DEPTH_INFINITY; 12]);
}

#[test]
fn nearer_write_wins_in_either_order() {
    let near = 13107; // 0.2
    let far = 52429; // 0.8
    let mut a = Canvas::new(2, 2);
    a.set_pixel(&px(1, 1, near), &RED);
    a.set_pixel(&px(1, 1, far), &GREEN);
    let mut b = Canvas::new(2, 2);
    b.set_pixel(&px(1, 1, far), &GREEN);
    b.set_pixel(&px(1, 1, near), &RED);
    assert_eq!(a.framebuffer()[1], RED);
    assert_eq!(b.framebuffer()[1], RED);
    assert_eq!(a.depthbuffer()[1], near as i64);
    assert_eq!(b.depthbuffer()[1], near as i64);
    assert_eq!(*a.framebuffer(), *b.framebuffer());
}

#[test]
fn first_write_wins_a_depth_tie() {
    let mut c = Canvas::new(2, 2);
    c.set_pixel(&px(0, 0, 500), &RED);
    c.set_pixel(&px(0, 0, 500), &GREEN);
    assert_eq!(c.framebuffer()[2], RED);
    assert_eq!(c.depthbuffer()[2], 500);
}

#[test]
fn deepest_possible_write_still_lands_on_a_cleared_cell() {
    let mut c = Canvas::new(1, 1);
    c.set_pixel(&px(0, 0, i32::MAX), &RED);
    assert_eq!(c.framebuffer()[0], RED);
    assert_eq!(c.depthbuffer()[0], i32::MAX as i64);
    c.set_pixel(&px(0, 0, i32::MIN), &GREEN);
    assert_eq!(c.framebuffer()[0], GREEN);
    assert_eq!(c.depthbuffer()[0], i32::MIN as i64);
}

#[test]
fn without_the_depth_test_the_last_write_wins_and_depth_stays() {
    let mut c = Canvas::new(2, 2);
    c.set_depth_test(false);
    assert!(!c.depth_test());
    c.set_pixel(&px(0, 1, 5), &RED);
    c.set_pixel(&px(0, 1, 900), &GREEN);
    assert_eq!(c.framebuffer()[0], GREEN);
    assert_eq!(*c.depthbuffer(), vec![DEPTH_INFINITY; 4]);
}

#[test]
fn clear_of_both_buffers_resets_every_cell() {
    let mut c = Canvas::new(3, 3);
    for x in 0..3 {
        for y in 0..3 {
            c.set_pixel(&px(x, y, (x + y) as i32), &RED);
        }
    }
    c.clear(Buffers::color() | Buffers::depth());
    assert_eq!(*c.framebuffer(), vec![BLACK; 9]);
    assert_eq!(*c.depthbuffer(), vec![DEPTH_INFINITY; 9]);
}

#[test]
fn clear_of_one_buffer_leaves_the_other() {
    let mut c = Canvas::new(2, 1);
    c.set_pixel(&px(0, 0, 3), &RED);
    c.clear(Buffers::color());
    assert_eq!(*c.framebuffer(), vec![BLACK; 2]);
    assert_eq!(*c.depthbuffer(), vec![3, DEPTH_INFINITY]);
    c.set_pixel(&px(1, 0, 4), &GREEN);
    c.clear(Buffers::depth());
    assert_eq!(*c.framebuffer(), vec![BLACK, GREEN]);
    assert_eq!(*c.depthbuffer(), vec![DEPTH_INFINITY; 2]);
    c.clear(Buffers::empty());
    assert_eq!(*c.framebuffer(), vec![BLACK, GREEN]);
}

#[test]
fn color_survives_a_depth_clear_until_something_nearer_than_infinity_comes() {
    let mut c = Canvas::new(1, 1);
    c.set_pixel(&px(0, 0, 3), &RED);
    c.clear(Buffers::depth());
    c.set_pixel(&px(0, 0, 1000), &GREEN);
    assert_eq!(c.framebuffer()[0], GREEN);
}
