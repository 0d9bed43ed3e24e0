use vstd::prelude::*;
use crate::pixel::BRIGHTNESS_ONE;

verus! {

/// Denominator of the guard epsilon: the scale factor applied to a brightness
/// before truncation is `(max_index + 1) - 1/SCALE_GUARD`, so that a
/// brightness of exactly one still truncates to `max_index` and never one
/// past it.
pub const SCALE_GUARD: u32 = 10000;

/// The ascii characters to use in order of dark to bright with a 10 character
/// precision.
pub open spec fn shallow_palette() -> Seq<char> {
    " .:-=+*#%@"@
}

/// The ascii characters to use in order of dark to bright with a 65 character
/// precision.
pub open spec fn deep_palette() -> Seq<char> {
    " `^\",:;Il!i~+_-?][}{1)(|/tfjrxnuvczXYUJCLQ0OZmwqpdbkhao*#MW&8%B@$"@
}

/// The character scale selected by the deep flag.
pub open spec fn palette(deep: bool) -> Seq<char> {
    if deep {
        deep_palette()
    } else {
        shallow_palette()
    }
}

/// Largest valid index of the selected palette: 64 for deep, 9 for shallow.
pub open spec fn max_index(deep: bool) -> int {
    if deep {
        64
    } else {
        9
    }
}

/// Each palette holds exactly `max_index + 1` characters.
pub proof fn lemma_palette_len(deep: bool)
    ensures
        palette(deep).len() == max_index(deep) + 1,
{
    reveal_strlit(" .:-=+*#%@");
    reveal_strlit(" `^\",:;Il!i~+_-?][}{1)(|/tfjrxnuvczXYUJCLQ0OZmwqpdbkhao*#MW&8%B@$");
}

/// Pre-inversion palette index for a brightness numerator (out of
/// `BRIGHTNESS_ONE`): the brightness times `(max_index + 1) - 1/SCALE_GUARD`,
/// truncated.  Computed exactly over the common denominator
/// `BRIGHTNESS_ONE * SCALE_GUARD`.
pub open spec fn scaled_index(bright: int, deep: bool) -> int {
    bright * ((max_index(deep) + 1) * SCALE_GUARD - 1) / ((BRIGHTNESS_ONE * SCALE_GUARD) as int)
}

/// Palette index after the invert flag is applied: inversion reflects the
/// scaled index within the palette.
pub open spec fn selected_index(bright: int, deep: bool, invert: bool) -> int {
    if invert {
        max_index(deep) - scaled_index(bright, deep)
    } else {
        scaled_index(bright, deep)
    }
}

/// The character a brightness numerator maps to under the deep and invert
/// flags.
pub open spec fn glyph_spec(bright: int, deep: bool, invert: bool) -> char {
    palette(deep)[selected_index(bright, deep, invert)]
}

/// For every brightness in range, the pre-inversion index stays within the
/// selected palette; brightness zero lands on the darkest character and full
/// brightness on the brightest.
pub proof fn lemma_scaled_index_in_range(bright: int, deep: bool)
    requires
        0 <= bright <= BRIGHTNESS_ONE,
    ensures
        0 <= scaled_index(bright, deep) <= max_index(deep),
        bright == 0 ==> scaled_index(bright, deep) == 0,
        bright == BRIGHTNESS_ONE ==> scaled_index(bright, deep) == max_index(deep),
{
    let numer = (max_index(deep) + 1) * SCALE_GUARD - 1;
    let denom = (BRIGHTNESS_ONE * SCALE_GUARD) as int;
    assert(0 <= bright * numer < denom * (max_index(deep) + 1)) by (nonlinear_arith)
        requires
            0 <= bright <= BRIGHTNESS_ONE,
            numer == (max_index(deep) + 1) * SCALE_GUARD - 1,
            denom == (BRIGHTNESS_ONE * SCALE_GUARD) as int,
            max_index(deep) == 64 || max_index(deep) == 9,
    ;
    assert(0 <= bright * numer / denom <= max_index(deep)) by (nonlinear_arith)
        requires
            0 <= bright * numer < denom * (max_index(deep) + 1),
            denom == 1950750000,
    ;
    if bright == BRIGHTNESS_ONE {
        assert(bright * numer == denom * max_index(deep) + (denom - BRIGHTNESS_ONE))
            by (nonlinear_arith)
            requires
                bright == BRIGHTNESS_ONE,
                numer == (max_index(deep) + 1) * SCALE_GUARD - 1,
                denom == (BRIGHTNESS_ONE * SCALE_GUARD) as int,
        ;
        assert(bright * numer / denom == max_index(deep)) by (nonlinear_arith)
            requires
                bright * numer == denom * max_index(deep) + (denom - BRIGHTNESS_ONE),
                denom == 1950750000,
                BRIGHTNESS_ONE == 195075,
                0 <= max_index(deep),
        ;
    }
}

/// Looks up one character of the selected palette.
pub fn palette_char(deep: bool, index: usize) -> (c: char)
    requires
        index <= max_index(deep),
    ensures
        c == palette(deep)[index as int],
{
    proof {
        lemma_palette_len(deep);
    }
    if deep {
        let scale = " `^\",:;Il!i~+_-?][}{1)(|/tfjrxnuvczXYUJCLQ0OZmwqpdbkhao*#MW&8%B@$";
        proof {
            reveal_strlit(" `^\",:;Il!i~+_-?][}{1)(|/tfjrxnuvczXYUJCLQ0OZmwqpdbkhao*#MW&8%B@$");
        }
        scale.get_char(index)
    } else {
        let scale = " .:-=+*#%@";
        proof {
            reveal_strlit(" .:-=+*#%@");
        }
        scale.get_char(index)
    }
}

} // verus!
