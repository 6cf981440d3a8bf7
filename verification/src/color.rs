//! Colors with 8-bit sRGB-encoded channels, and exact linear interpolation
//! between two colors at a rational blend ratio.

use vstd::prelude::*;
use vstd::arithmetic::div_mod::{
    lemma_div_by_multiple, lemma_div_is_ordered, lemma_div_multiples_vanish,
};

verus! {

/// A color with 8-bit sRGB-encoded red, green and blue channels plus an
/// 8-bit alpha channel. `0xFF` alpha is fully opaque.
#[derive(Clone, Copy, Debug, PartialEq, Eq, Structural)]
pub struct Rgba {
    pub red: u8,
    pub green: u8,
    pub blue: u8,
    pub alpha: u8,
}

impl Rgba {
    /// A fully opaque color from its three sRGB channels.
    pub fn rgb(red: u8, green: u8, blue: u8) -> (c: Rgba)
        ensures
            c == (Rgba { red, green, blue, alpha: 255 }),
    {
        Rgba { red, green, blue, alpha: 255 }
    }

    /// Opaque white, the default rim color.
    pub fn white() -> (c: Rgba)
        ensures
            c == white_spec(),
    {
        Rgba { red: 255, green: 255, blue: 255, alpha: 255 }
    }
}

/// Opaque white as a mathematical value.
pub open spec fn white_spec() -> Rgba {
    Rgba { red: 255, green: 255, blue: 255, alpha: 255 }
}

/// The blend of two channel values at the ratio `num / den`, as exact
/// integer arithmetic: `(a * (den - num) + b * num) / den`, rounding the
/// quotient toward zero. At `num == 0` this is `a`, at `num == den` it is
/// `b`.
pub open spec fn mix_channel_spec(a: u8, b: u8, num: u32, den: u32) -> int
    recommends
        0 < den,
        num <= den,
{
    (a as int * (den - num) + b as int * num as int) / den as int
}

/// The blend of two colors at the ratio `num / den`, channel by channel.
/// The result is fully opaque: alpha is not interpolated.
pub open spec fn mix_colors_spec(a: Rgba, b: Rgba, num: u32, den: u32) -> Rgba
    recommends
        0 < den,
        num <= den,
{
    Rgba {
        red: mix_channel_spec(a.red, b.red, num, den) as u8,
        green: mix_channel_spec(a.green, b.green, num, den) as u8,
        blue: mix_channel_spec(a.blue, b.blue, num, den) as u8,
        alpha: 255,
    }
}

/// A blended channel value always lies between 0 and 255, so the `as u8`
/// casts in `mix_colors_spec` do not truncate.
pub proof fn lemma_mix_channel_bounds(a: u8, b: u8, num: u32, den: u32)
    requires
        0 < den,
        num <= den,
    ensures
        0 <= mix_channel_spec(a, b, num, den) <= 255,
{
    let total = a as int * (den - num) + b as int * num as int;
    assert(0 <= total && total <= 255 * den as int) by (nonlinear_arith)
        requires
            a <= 255,
            b <= 255,
            num <= den,
            total == a as int * (den - num) + b as int * num as int,
    ;
    lemma_div_is_ordered(total, 255 * den as int, den as int);
    lemma_div_by_multiple(255, den as int);
    lemma_div_is_ordered(0, total, den as int);
}

/// Blends one channel of two colors at the ratio `num / den` with exact
/// integer arithmetic.
pub fn mix_channel(a: u8, b: u8, num: u32, den: u32) -> (r: u8)
    requires
        0 < den,
        num <= den,
    ensures
        r == mix_channel_spec(a, b, num, den),
{
    let diff: u32 = den - num;
    proof {
        assert(0 <= a as int * (diff as int) <= 255 * 0xffff_ffff) by (nonlinear_arith)
            requires
                a <= 255,
                diff <= 0xffff_ffff,
        ;
        assert(0 <= b as int * (num as int) <= 255 * 0xffff_ffff) by (nonlinear_arith)
            requires
                b <= 255,
                num <= 0xffff_ffff,
        ;
        lemma_mix_channel_bounds(a, b, num, den);
    }
    let total: u64 = (a as u64) * (diff as u64) + (b as u64) * (num as u64);
    let q: u64 = total / (den as u64);
    q as u8
}

/// Blends two colors at the ratio `num / den`, channel by channel, with
/// exact integer arithmetic. The result is fully opaque. At `num == 0` the
/// channels of `a` come back unchanged, at `num == den` those of `b`, and at
/// `num / den == 1 / 2` each channel is the arithmetic midpoint of the two
/// inputs, rounded toward zero.
pub fn mix_colors(a: Rgba, b: Rgba, num: u32, den: u32) -> (r: Rgba)
    requires
        0 < den,
        num <= den,
    ensures
        r == mix_colors_spec(a, b, num, den),
{
    proof {
        lemma_mix_channel_bounds(a.red, b.red, num, den);
        lemma_mix_channel_bounds(a.green, b.green, num, den);
        lemma_mix_channel_bounds(a.blue, b.blue, num, den);
    }
    Rgba {
        red: mix_channel(a.red, b.red, num, den),
        green: mix_channel(a.green, b.green, num, den),
        blue: mix_channel(a.blue, b.blue, num, den),
        alpha: 255,
    }
}

/// Blending at ratio 0 reproduces the first color exactly, and blending at
/// ratio 1 reproduces the second, channel for channel; the whole opaque
/// color comes back unchanged.
pub proof fn lemma_mix_colors_endpoints(a: Rgba, b: Rgba, den: u32)
    requires
        0 < den,
    ensures
        a.alpha == 255 ==> mix_colors_spec(a, b, 0, den) == a,
        b.alpha == 255 ==> mix_colors_spec(a, b, den, den) == b,
{
    lemma_mix_channel_endpoints(a.red, b.red, den);
    lemma_mix_channel_endpoints(a.green, b.green, den);
    lemma_mix_channel_endpoints(a.blue, b.blue, den);
}

/// Blending two colors at the ratio 1/2 gives the arithmetic midpoint of
/// the two inputs in every channel whose inputs sum to an even number,
/// exactly; the result is opaque.
pub proof fn lemma_mix_colors_midpoint(a: Rgba, b: Rgba)
    requires
        (a.red + b.red) % 2 == 0,
        (a.green + b.green) % 2 == 0,
        (a.blue + b.blue) % 2 == 0,
    ensures
        2 * mix_colors_spec(a, b, 1, 2).red == a.red + b.red,
        2 * mix_colors_spec(a, b, 1, 2).green == a.green + b.green,
        2 * mix_colors_spec(a, b, 1, 2).blue == a.blue + b.blue,
        mix_colors_spec(a, b, 1, 2).alpha == 255,
{
    lemma_mix_channel_bounds(a.red, b.red, 1, 2);
    lemma_mix_channel_bounds(a.green, b.green, 1, 2);
    lemma_mix_channel_bounds(a.blue, b.blue, 1, 2);
    lemma_mix_channel_midpoint(a.red, b.red);
    lemma_mix_channel_midpoint(a.green, b.green);
    lemma_mix_channel_midpoint(a.blue, b.blue);
}

/// Blending a channel at ratio 0 gives the first input and at ratio 1 the
/// second, exactly.
pub proof fn lemma_mix_channel_endpoints(a: u8, b: u8, den: u32)
    requires
        0 < den,
    ensures
        mix_channel_spec(a, b, 0, den) == a,
        mix_channel_spec(a, b, den, den) == b,
{
    assert(a as int * (den - 0) + b as int * 0 == a as int * den as int) by (nonlinear_arith);
    assert(a as int * (den - den) + b as int * den as int == b as int * den as int)
        by (nonlinear_arith);
    lemma_div_multiples_vanish(a as int, den as int);
    lemma_div_multiples_vanish(b as int, den as int);
    assert(a as int * den as int == den as int * a as int) by (nonlinear_arith);
    assert(b as int * den as int == den as int * b as int) by (nonlinear_arith);
}

/// Blending a channel at the ratio 1/2 gives the arithmetic midpoint of the
/// two inputs whenever their sum is even, exactly.
pub proof fn lemma_mix_channel_midpoint(a: u8, b: u8)
    requires
        (a + b) % 2 == 0,
    ensures
        2 * mix_channel_spec(a, b, 1, 2) == a + b,
{
    assert(a as int * (2 - 1) + b as int * 1 == a + b);
    assert(2 * ((a + b) / 2) == a + b);
}

} // verus!
