use vstd::prelude::*;
use crate::palette::{
    glyph_spec, lemma_scaled_index_in_range, max_index, palette_char, scaled_index, selected_index,
};
use crate::pixel::{brightness_of, compute_brightness, Pixel, BRIGHTNESS_ONE};

verus! {

/// How a point is to be colored when emitted: as plain text, or with the
/// pixel's original foreground color.
#[derive(Clone, Copy, PartialEq, Eq, Structural, Debug)]
pub enum ColorType {
    Grayscale,
    Colored(u8, u8, u8),
}

/// The information required to render one pixel: its brightness numerator
/// (out of `BRIGHTNESS_ONE`) and its color tag.
#[derive(Clone, Copy, PartialEq, Eq, Structural, Debug)]
pub struct AsciiPoint {
    pub color: ColorType,
    pub brightness: u32,
}

impl AsciiPoint {
    /// A point is well formed when its brightness does not exceed full
    /// brightness.
    pub open spec fn wf(self) -> bool {
        self.brightness <= BRIGHTNESS_ONE
    }
}

/// Create the information required to construct an ascii representation
/// of the provided pixel in grayscale.
pub fn gray_point_for_pixel(pixel: &Pixel) -> (point: AsciiPoint)
    ensures
        point.brightness == brightness_of(pixel.r, pixel.g, pixel.b, pixel.a),
        point.color == ColorType::Grayscale,
        point.wf(),
{
    AsciiPoint { brightness: compute_brightness(pixel), color: ColorType::Grayscale }
}

/// Create the information required to construct an ascii representation
/// of the provided pixel maintaining its color.  The color tag keeps the
/// original channel values; alpha weighs only into the brightness.
pub fn colored_point_for_pixel(pixel: &Pixel) -> (point: AsciiPoint)
    ensures
        point.brightness == brightness_of(pixel.r, pixel.g, pixel.b, pixel.a),
        point.color == ColorType::Colored(pixel.r, pixel.g, pixel.b),
        point.wf(),
{
    AsciiPoint {
        brightness: compute_brightness(pixel),
        color: ColorType::Colored(pixel.r, pixel.g, pixel.b),
    }
}

/// Fetches the corresponding ascii character to represent the provided
/// brightness.
pub fn ascii_char_for_point(point: AsciiPoint, deep: bool, invert: bool) -> (c: char)
    requires
        point.wf(),
    ensures
        c == glyph_spec(point.brightness as int, deep, invert),
{
    let bright = point.brightness;
    let numer: u64 = if deep {
        649999
    } else {
        99999
    };
    proof {
        assert((bright as int) * (numer as int) <= 195075 * 649999) by (nonlinear_arith)
            requires
                bright <= 195075,
                numer <= 649999,
        ;
    }
    let scaled64: u64 = (bright as u64) * numer / 1950750000u64;
    proof {
        assert(numer == (max_index(deep) + 1) * crate::palette::SCALE_GUARD - 1);
        assert(scaled64 == scaled_index(bright as int, deep));
        lemma_scaled_index_in_range(bright as int, deep);
    }
    let scaled: usize = scaled64 as usize;
    let index: usize = if invert {
        let m: usize = if deep {
            64
        } else {
            9
        };
        m - scaled
    } else {
        scaled
    };
    proof {
        assert(index == selected_index(bright as int, deep, invert));
    }
    palette_char(deep, index)
}

} // verus!
