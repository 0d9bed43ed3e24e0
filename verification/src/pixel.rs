use vstd::prelude::*;

verus! {

/// Denominator of the exact brightness fraction: `3 * 255 * 255`.
///
/// A pixel's brightness is the average of its red, green and blue channels,
/// normalized to `[0, 1]`, multiplied by its normalized alpha channel.  That
/// quantity is the rational number `(r + g + b) * a / (3 * 255 * 255)`, so it
/// is represented exactly by its numerator `(r + g + b) * a`, a value between
/// `0` (black or fully transparent) and `BRIGHTNESS_ONE` (opaque white).
pub const BRIGHTNESS_ONE: u32 = 195075;

/// One RGBA pixel: four 8-bit channels, red, green, blue, alpha.
#[derive(Clone, Copy, PartialEq, Eq, Structural, Debug)]
pub struct Pixel {
    pub r: u8,
    pub g: u8,
    pub b: u8,
    pub a: u8,
}

/// Brightness numerator of a pixel: `(r + g + b) * a`, out of `BRIGHTNESS_ONE`.
pub open spec fn brightness_of(r: u8, g: u8, b: u8, a: u8) -> int {
    (r + g + b) * a
}

/// Computes the brightness of the pixel as the numerator of an exact fraction
/// with denominator `BRIGHTNESS_ONE`: `0` is darkest, `BRIGHTNESS_ONE` is
/// brightest.  A fully transparent pixel has brightness `0` whatever its color.
pub fn compute_brightness(pixel: &Pixel) -> (bright: u32)
    ensures
        bright == brightness_of(pixel.r, pixel.g, pixel.b, pixel.a),
        bright <= BRIGHTNESS_ONE,
        pixel.a == 0 ==> bright == 0,
{
    let sum: u32 = (pixel.r as u32) + (pixel.g as u32) + (pixel.b as u32);
    proof {
        assert((sum as int) * (pixel.a as int) <= 765 * 255 && (pixel.a == 0 ==> (sum as int)
            * (pixel.a as int) == 0)) by (nonlinear_arith)
            requires
                sum <= 765,
                pixel.a <= 255,
        ;
    }
    let bright: u32 = sum * (pixel.a as u32);
    bright
}

} // verus!
