//! Wireframe edges: an incremental, octant-aware line rasterizer.
//!
//! The line steps one pixel at a time along its primary axis, the axis of
//! the larger extent, from the endpoint with the smaller primary coordinate
//! to the other. The secondary coordinate follows the ideal line rounded to
//! the nearest pixel, which the decision variable tracks without division.

use vstd::prelude::*;
use vstd::arithmetic::div_mod::lemma_fundamental_div_mod_converse;
use crate::canvas::{lemma_plot_all_push, Canvas, Fragment, Pixel};
use crate::fixed::{whole, whole_part, CHANNEL_MAX};
use crate::vector::Vec3;

verus! {

/// The depth that every pixel of a line carries.
pub const LINE_DEPTH: i32 = 65536;

/// The color of every line: white.
pub open spec fn line_color_spec() -> Vec3 {
    Vec3 { x: CHANNEL_MAX, y: CHANNEL_MAX, z: CHANNEL_MAX }
}

pub fn line_color() -> (c: Vec3)
    ensures
        c == line_color_spec(),
{
    Vec3 { x: CHANNEL_MAX, y: CHANNEL_MAX, z: CHANNEL_MAX }
}

/// Absolute value.
pub open spec fn magnitude(v: int) -> int {
    if v < 0 {
        -v
    } else {
        v
    }
}

/// Whether the line steps along x: its extent in y is no larger than its
/// extent in x.
pub open spec fn x_major(begin: Vec3, end: Vec3) -> bool {
    magnitude(end.y - begin.y) <= magnitude(end.x - begin.x)
}

/// Whether the secondary coordinate grows as the primary one does: both
/// deltas are nonzero and of one sign.
pub open spec fn rising(begin: Vec3, end: Vec3) -> bool {
    let dx = end.x - begin.x;
    let dy = end.y - begin.y;
    (dx < 0 && dy < 0) || (dx > 0 && dy > 0)
}

/// Whether the line is walked from `begin`: `begin` has the smaller
/// primary coordinate, or the two are equal.
pub open spec fn forward(begin: Vec3, end: Vec3) -> bool {
    if x_major(begin, end) {
        end.x - begin.x >= 0
    } else {
        end.y - begin.y >= 0
    }
}

/// The endpoint the walk starts at.
pub open spec fn line_start(begin: Vec3, end: Vec3) -> Vec3 {
    if forward(begin, end) {
        begin
    } else {
        end
    }
}

/// The endpoint the walk ends at.
pub open spec fn line_stop(begin: Vec3, end: Vec3) -> Vec3 {
    if forward(begin, end) {
        end
    } else {
        begin
    }
}

/// The extent along the primary axis, in fixed-point units.
pub open spec fn major_extent(begin: Vec3, end: Vec3) -> int {
    if x_major(begin, end) {
        magnitude(end.x - begin.x)
    } else {
        magnitude(end.y - begin.y)
    }
}

/// The extent along the secondary axis, in fixed-point units.
pub open spec fn minor_extent(begin: Vec3, end: Vec3) -> int {
    if x_major(begin, end) {
        magnitude(end.y - begin.y)
    } else {
        magnitude(end.x - begin.x)
    }
}

/// The number of pixels the walk plots after its first.
pub open spec fn line_count(begin: Vec3, end: Vec3) -> int {
    let s = line_start(begin, end);
    let t = line_stop(begin, end);
    if x_major(begin, end) {
        whole(t.x as int) - whole(s.x as int)
    } else {
        whole(t.y as int) - whole(s.y as int)
    }
}

/// How far the secondary coordinate has moved after `k` primary steps: the
/// ideal offset `k * minor / major` rounded to the nearest integer, a tie
/// rounded up.
pub open spec fn minor_steps(k: int, major: int, minor: int) -> int {
    if major <= 0 {
        0
    } else {
        (2 * k * minor + major) / (2 * major)
    }
}

/// The pixel plotted at primary step `k` of the line, for
/// `0 <= k <= line_count(begin, end)`.
pub open spec fn line_pixel(begin: Vec3, end: Vec3, k: int) -> Pixel {
    let s = line_start(begin, end);
    let moved = minor_steps(k, major_extent(begin, end), minor_extent(begin, end));
    let offset = if rising(begin, end) {
        moved
    } else {
        -moved
    };
    if x_major(begin, end) {
        Pixel {
            x: (whole(s.x as int) + k) as i64,
            y: (whole(s.y as int) + offset) as i64,
            depth: LINE_DEPTH,
        }
    } else {
        Pixel {
            x: (whole(s.x as int) + offset) as i64,
            y: (whole(s.y as int) + k) as i64,
            depth: LINE_DEPTH,
        }
    }
}

/// The pixel writes of one line, in the order they are made.
pub open spec fn line_fragments(begin: Vec3, end: Vec3) -> Seq<Fragment> {
    Seq::new(
        (line_count(begin, end) + 1) as nat,
        |k: int| Fragment { point: line_pixel(begin, end, k), color: line_color_spec() },
    )
}

/// The walk never runs backwards, and a line of no primary extent is a
/// single pixel.
pub proof fn lemma_line_count(begin: Vec3, end: Vec3)
    ensures
        0 <= line_count(begin, end) <= 65535,
        major_extent(begin, end) == 0 ==> line_count(begin, end) == 0,
        line_fragments(begin, end).len() == line_count(begin, end) + 1,
{
}

/// A quotient and remainder that satisfy the division identity give the
/// number of secondary steps.
proof fn lemma_minor_steps(k: int, major: int, minor: int, s: int, r: int)
    requires
        major > 0,
        0 <= r < 2 * major,
        2 * k * minor + major == s * (2 * major) + r,
    ensures
        minor_steps(k, major, minor) == s,
{
    lemma_fundamental_div_mod_converse(2 * k * minor + major, 2 * major, s, r);
}

/// One primary step adds twice the minor extent to the dividend, which
/// moves the quotient by one exactly when the remainder wraps.
proof fn lemma_step(k: int, major: int, minor: int, s: int, r: int, stepped: bool)
    requires
        major > 0,
        0 <= minor <= major,
        0 <= r < 2 * major,
        2 * k * minor + major == s * (2 * major) + r,
        stepped <==> r + 2 * minor >= 2 * major,
    ensures
        2 * (k + 1) * minor + major == (if stepped {
            s + 1
        } else {
            s
        }) * (2 * major) + (if stepped {
            r + 2 * minor - 2 * major
        } else {
            r + 2 * minor
        }),
{
    assert(2 * (k + 1) * minor == 2 * k * minor + 2 * minor) by (nonlinear_arith);
    assert((s + 1) * (2 * major) == s * (2 * major) + 2 * major) by (nonlinear_arith);
}

impl Canvas {
    /// Draws the line from `begin` to `end` in the line color: each of
    /// [`line_fragments`] is written, in order.
    pub fn draw_line(&mut self, begin: &Vec3, end: &Vec3)
        ensures
            final(self)@ == old(self)@.plot_all(line_fragments(*begin, *end)),
    {
        let color = line_color();
        let dx: i64 = end.x as i64 - begin.x as i64;
        let dy: i64 = end.y as i64 - begin.y as i64;
        let dx1: i64 = if dx < 0 {
            -dx
        } else {
            dx
        };
        let dy1: i64 = if dy < 0 {
            -dy
        } else {
            dy
        };
        let up: bool = (dx < 0 && dy < 0) || (dx > 0 && dy > 0);
        let ghost frags = line_fragments(*begin, *end);
        let ghost count = line_count(*begin, *end);
        proof {
            lemma_line_count(*begin, *end);
        }
        if dy1 <= dx1 {
            let mut px: i64 = 2 * dy1 - dx1;
            let mut x: i64;
            let mut y: i64;
            let xe: i64;
            if dx >= 0 {
                x = whole_part(begin.x) as i64;
                y = whole_part(begin.y) as i64;
                xe = whole_part(end.x) as i64;
            } else {
                x = whole_part(end.x) as i64;
                y = whole_part(end.y) as i64;
                xe = whole_part(begin.x) as i64;
            }
            let ghost x0 = x as int;
            let ghost y0 = y as int;
            let ghost mut k: int = 0;
            let ghost mut s: int = 0;
            let ghost mut r: int = dx1 as int;
            proof {
                assert(2 * 0 * dy1 + dx1 == 0 * (2 * dx1) + dx1) by (nonlinear_arith);
                if dx1 > 0 {
                    lemma_minor_steps(0, dx1 as int, dy1 as int, 0, dx1 as int);
                }
                assert(frags.take(1) =~= Seq::<Fragment>::empty().push(frags[0]));
                lemma_plot_all_push(old(self)@, Seq::<Fragment>::empty(), frags[0]);
            }
            self.set_pixel(&Pixel { x, y, depth: LINE_DEPTH }, &color);
            while x < xe
                invariant
                    frags == line_fragments(*begin, *end),
                    count == line_count(*begin, *end),
                    frags.len() == count + 1,
                    x_major(*begin, *end),
                    dx1 == major_extent(*begin, *end),
                    dy1 == minor_extent(*begin, *end),
                    up == rising(*begin, *end),
                    0 <= dy1 <= dx1 <= 0x1_0000_0000,
                    x0 == whole(line_start(*begin, *end).x as int),
                    y0 == whole(line_start(*begin, *end).y as int),
                    -32768 <= y0 <= 32767,
                    -32768 <= x0 <= 32767,
                    xe == x0 + count,
                    color == line_color_spec(),
                    0 <= k <= count <= 65535,
                    x == x0 + k,
                    0 <= s <= k,
                    y == y0 + (if up {
                        s
                    } else {
                        -s
                    }),
                    dx1 > 0 ==> 0 <= r < 2 * dx1,
                    dx1 > 0 ==> 2 * k * dy1 + dx1 == s * (2 * dx1) + r,
                    dx1 > 0 ==> px == 2 * dy1 - 2 * dx1 + r,
                    self@ == old(self)@.plot_all(frags.take(k + 1)),
                decreases xe - x,
            {
                proof {
                    lemma_step(k, dx1 as int, dy1 as int, s, r, px >= 0);
                }
                x = x + 1;
                if px < 0 {
                    px = px + 2 * dy1;
                    proof {
                        r = r + 2 * dy1;
                    }
                } else {
                    if up {
                        y = y + 1;
                    } else {
                        y = y - 1;
                    }
                    px = px + 2 * (dy1 - dx1);
                    proof {
                        r = r + 2 * dy1 - 2 * dx1;
                        s = s + 1;
                    }
                }
                proof {
                    k = k + 1;
                    lemma_minor_steps(k, dx1 as int, dy1 as int, s, r);
                    assert(frags.take(k + 1) =~= frags.take(k).push(frags[k]));
                    lemma_plot_all_push(old(self)@, frags.take(k), frags[k]);
                }
                self.set_pixel(&Pixel { x, y, depth: LINE_DEPTH }, &color);
            }
            assert(frags.take(count + 1) =~= frags);
        } else {
            let mut py: i64 = 2 * dx1 - dy1;
            let mut x: i64;
            let mut y: i64;
            let ye: i64;
            if dy >= 0 {
                x = whole_part(begin.x) as i64;
                y = whole_part(begin.y) as i64;
                ye = whole_part(end.y) as i64;
            } else {
                x = whole_part(end.x) as i64;
                y = whole_part(end.y) as i64;
                ye = whole_part(begin.y) as i64;
            }
            let ghost x0 = x as int;
            let ghost y0 = y as int;
            let ghost mut k: int = 0;
            let ghost mut s: int = 0;
            let ghost mut r: int = dy1 as int;
            proof {
                assert(2 * 0 * dx1 + dy1 == 0 * (2 * dy1) + dy1) by (nonlinear_arith);
                lemma_minor_steps(0, dy1 as int, dx1 as int, 0, dy1 as int);
                assert(frags.take(1) =~= Seq::<Fragment>::empty().push(frags[0]));
                lemma_plot_all_push(old(self)@, Seq::<Fragment>::empty(), frags[0]);
            }
            self.set_pixel(&Pixel { x, y, depth: LINE_DEPTH }, &color);
            while y < ye
                invariant
                    frags == line_fragments(*begin, *end),
                    count == line_count(*begin, *end),
                    frags.len() == count + 1,
                    !x_major(*begin, *end),
                    dy1 == major_extent(*begin, *end),
                    dx1 == minor_extent(*begin, *end),
                    up == rising(*begin, *end),
                    0 <= dx1 < dy1 <= 0x1_0000_0000,
                    x0 == whole(line_start(*begin, *end).x as int),
                    y0 == whole(line_start(*begin, *end).y as int),
                    -32768 <= y0 <= 32767,
                    -32768 <= x0 <= 32767,
                    ye == y0 + count,
                    color == line_color_spec(),
                    0 <= k <= count <= 65535,
                    y == y0 + k,
                    0 <= s <= k,
                    x == x0 + (if up {
                        s
                    } else {
                        -s
                    }),
                    0 <= r < 2 * dy1,
                    2 * k * dx1 + dy1 == s * (2 * dy1) + r,
                    py == 2 * dx1 - 2 * dy1 + r,
                    self@ == old(self)@.plot_all(frags.take(k + 1)),
                decreases ye - y,
            {
                proof {
                    lemma_step(k, dy1 as int, dx1 as int, s, r, py >= 0);
                }
                y = y + 1;
                if py < 0 {
                    py = py + 2 * dx1;
                    proof {
                        r = r + 2 * dx1;
                    }
                } else {
                    if up {
                        x = x + 1;
                    } else {
                        x = x - 1;
                    }
                    py = py + 2 * (dx1 - dy1);
                    proof {
                        r = r + 2 * dx1 - 2 * dy1;
                        s = s + 1;
                    }
                }
                proof {
                    k = k + 1;
                    lemma_minor_steps(k, dy1 as int, dx1 as int, s, r);
                    assert(frags.take(k + 1) =~= frags.take(k).push(frags[k]));
                    lemma_plot_all_push(old(self)@, frags.take(k), frags[k]);
                }
                self.set_pixel(&Pixel { x, y, depth: LINE_DEPTH }, &color);
            }
            assert(frags.take(count + 1) =~= frags);
        }
    }
}

} // verus!
