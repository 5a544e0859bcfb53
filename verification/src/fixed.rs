//! Q16.16 fixed-point scalars: an `i32` whose value is its integer divided
//! by 65536. Products and quotients are formed exactly in wider integers,
//! rounded toward zero, and saturated back into the `i32` range.

use vstd::prelude::*;

verus! {

/// The fixed-point representation of 1.
pub const ONE: i32 = 65536;

/// The fixed-point representation of one half.
pub const HALF: i32 = 32768;

/// The fixed-point representation of 255, the largest color channel.
pub const CHANNEL_MAX: i32 = 16711680;

/// `v` limited to the range of `i32`.
pub open spec fn clamp(v: int) -> int {
    if v < i32::MIN {
        i32::MIN as int
    } else if v > i32::MAX {
        i32::MAX as int
    } else {
        v
    }
}

/// The quotient of `a` by `b` rounded toward zero; 0 when `b` is 0.
pub open spec fn div_trunc(a: int, b: int) -> int {
    if b == 0 {
        0
    } else if b > 0 {
        if a >= 0 {
            a / b
        } else {
            -((-a) / b)
        }
    } else {
        if a >= 0 {
            -(a / (-b))
        } else {
            (-a) / (-b)
        }
    }
}

/// The whole part of the fixed-point value `c`, rounded toward zero.
pub open spec fn whole(c: int) -> int {
    div_trunc(c, ONE as int)
}

/// The pixel that holds the fixed-point coordinate `c`: its whole part,
/// rounded down.
pub open spec fn pixel_of(c: int) -> int {
    c / (ONE as int)
}

/// The fixed-point quotient of `a` by `b`. Division by zero saturates in
/// the direction of the dividend's sign, and gives 0 for a zero dividend.
pub open spec fn fx_div_spec(a: int, b: int) -> int {
    if b == 0 {
        if a > 0 {
            i32::MAX as int
        } else if a < 0 {
            i32::MIN as int
        } else {
            0
        }
    } else {
        clamp(div_trunc(a * ONE, b))
    }
}

/// A color channel as a byte: its whole part, limited to 0 to 255.
pub open spec fn channel_byte_spec(c: int) -> int {
    if c < 0 {
        0
    } else if c > CHANNEL_MAX {
        255
    } else {
        whole(c)
    }
}

/// Saturates a wide integer into the `i32` range.
pub fn saturate(v: i128) -> (r: i32)
    ensures
        r == clamp(v as int),
{
    if v < -2147483648 {
        -2147483648
    } else if v > 2147483647 {
        2147483647
    } else {
        v as i32
    }
}

/// Exact product of two fixed-point scalars, as a wide integer.
pub fn wide_mul(a: i32, b: i32) -> (p: i64)
    ensures
        p == a * b,
        -0x4000_0000_0000_0000 <= p <= 0x4000_0000_0000_0000,
{
    assert(-0x4000_0000_0000_0000 <= a * b <= 0x4000_0000_0000_0000) by (nonlinear_arith)
        requires
            -0x8000_0000 <= a <= 0x7fff_ffff,
            -0x8000_0000 <= b <= 0x7fff_ffff,
    ;
    (a as i64) * (b as i64)
}

/// Rounding toward zero never takes a quotient further from zero than the
/// dividend is.
pub proof fn lemma_div_trunc_bound(a: int, b: int)
    ensures
        a >= 0 ==> -a <= div_trunc(a, b) <= a,
        a <= 0 ==> a <= div_trunc(a, b) <= -a,
{
    if b != 0 {
        let ma: int = if a >= 0 {
            a
        } else {
            -a
        };
        let mb: int = if b > 0 {
            b
        } else {
            -b
        };
        assert(0 <= ma / mb <= ma) by (nonlinear_arith)
            requires
                ma >= 0,
                mb > 0,
        ;
    }
}

/// Quotient rounded toward zero.
pub fn divide(a: i128, b: i128) -> (q: i128)
    requires
        b != 0,
        a > i128::MIN,
        b > i128::MIN,
    ensures
        q == div_trunc(a as int, b as int),
        a >= 0 ==> -a <= q <= a,
        a <= 0 ==> a <= q <= -a,
{
    proof {
        lemma_div_trunc_bound(a as int, b as int);
    }
    if b > 0 {
        a / b
    } else {
        let r: i128 = (-a) / (-b);
        r
    }
}

/// The exact product of two differences of scalars.
pub fn diff_product(a: i32, b: i32, c: i32, d: i32) -> (p: i128)
    ensures
        p == (a - b) * (c - d),
        -0x1_0000_0000_0000_0000 <= p <= 0x1_0000_0000_0000_0000,
{
    let m: i64 = a as i64 - b as i64;
    let n: i64 = c as i64 - d as i64;
    assert(-0x1_0000_0000_0000_0000 <= m * n <= 0x1_0000_0000_0000_0000) by (nonlinear_arith)
        requires
            -0x1_0000_0000 <= m <= 0x1_0000_0000,
            -0x1_0000_0000 <= n <= 0x1_0000_0000,
    ;
    (m as i128) * (n as i128)
}

/// The fixed-point quotient of two wide integers: see [`fx_div_spec`].
pub fn ratio(n: i128, d: i128) -> (r: i32)
    requires
        -0x1_0000_0000_0000_0000_0000 <= n <= 0x1_0000_0000_0000_0000_0000,
        d > i128::MIN,
    ensures
        r == fx_div_spec(n as int, d as int),
{
    if d == 0 {
        if n > 0 {
            i32::MAX
        } else if n < 0 {
            i32::MIN
        } else {
            0
        }
    } else {
        saturate(divide(n * 65536, d))
    }
}

/// The whole part of a fixed-point scalar, rounded toward zero.
pub fn whole_part(c: i32) -> (w: i32)
    ensures
        w == whole(c as int),
        -32768 <= w <= 32767,
{
    c / ONE
}

/// The pixel that holds a fixed-point coordinate.
pub fn pixel_index(c: i32) -> (p: i32)
    ensures
        p == pixel_of(c as int),
        -32768 <= p <= 32767,
{
    let q: i32 = c / ONE;
    let r: i32 = c % ONE;
    if r < 0 {
        q - 1
    } else {
        q
    }
}

/// A color channel as a byte.
pub fn channel_byte(c: i32) -> (b: u8)
    ensures
        b == channel_byte_spec(c as int),
{
    if c < 0 {
        0
    } else if c > CHANNEL_MAX {
        255
    } else {
        (c / ONE) as u8
    }
}

/// The fixed-point scalar that stands for the integer `n`.
pub fn from_int(n: i16) -> (c: i32)
    ensures
        c == n * ONE,
        whole(c as int) == n,
{
    (n as i32) * ONE
}

/// Fixed-point division.
pub fn fx_div(a: i32, b: i32) -> (r: i32)
    ensures
        r == fx_div_spec(a as int, b as int),
{
    if b == 0 {
        if a > 0 {
            i32::MAX
        } else if a < 0 {
            i32::MIN
        } else {
            0
        }
    } else {
        let n: i128 = (a as i128) * 65536;
        saturate(divide(n, b as i128))
    }
}

} // verus!
