use vstd::prelude::*;
use crate::palette::glyph_spec;
use crate::pixel::brightness_of;
use crate::point::ColorType;

verus! {

/// Brightness numerator of a grid pixel given as an RGBA tuple.
pub open spec fn pixel_brightness(px: (u8, u8, u8, u8)) -> int {
    brightness_of(px.0, px.1, px.2, px.3)
}

/// The character one grid pixel renders to under the deep and invert flags.
pub open spec fn glyph_for_pixel(px: (u8, u8, u8, u8), deep: bool, invert: bool) -> char {
    glyph_spec(pixel_brightness(px), deep, invert)
}

/// The line of characters one grid row renders to, left to right.
pub open spec fn rendered_line(row: Seq<(u8, u8, u8, u8)>, deep: bool, invert: bool) -> Seq<char> {
    row.map_values(|px: (u8, u8, u8, u8)| glyph_for_pixel(px, deep, invert))
}

/// The lines of characters a grid renders to, top to bottom.
pub open spec fn rendered_lines(
    grid: Seq<Seq<(u8, u8, u8, u8)>>,
    deep: bool,
    invert: bool,
) -> Seq<Seq<char>> {
    grid.map_values(|row: Seq<(u8, u8, u8, u8)>| rendered_line(row, deep, invert))
}

/// Lines joined with a single line break between consecutive lines and no
/// trailing break.
pub open spec fn joined(lines: Seq<Seq<char>>) -> Seq<char>
    decreases lines.len(),
{
    if lines.len() == 0 {
        Seq::empty()
    } else if lines.len() == 1 {
        lines[0]
    } else {
        joined(lines.drop_last()) + seq!['\n'] + lines.last()
    }
}

/// The full plain-text rendering of a grid: its rendered lines, joined.
pub open spec fn rendered_text(grid: Seq<Seq<(u8, u8, u8, u8)>>, deep: bool, invert: bool) -> Seq<
    char,
> {
    joined(rendered_lines(grid, deep, invert))
}

/// Joining one more line appends a line break (unless it is the first line)
/// and then the line.
pub proof fn lemma_joined_push(lines: Seq<Seq<char>>, line: Seq<char>)
    ensures
        joined(lines.push(line)) == if lines.len() == 0 {
            line
        } else {
            joined(lines) + seq!['\n'] + line
        },
{
    let pushed = lines.push(line);
    assert(pushed.drop_last() =~= lines);
    assert(pushed.last() == line);
    if lines.len() == 0 {
        assert(joined(pushed) =~= line);
    }
}

/// One cell of a colorized rendering: the character to print and the color
/// to print it in.
#[derive(Clone, Copy, PartialEq, Eq, Structural, Debug)]
pub struct AsciiCell {
    pub color: ColorType,
    pub glyph: char,
}

/// The cell one grid pixel renders to in colorized mode: its glyph under the
/// original, pre-brightness-weighted channel values as foreground color.
pub open spec fn colored_cell_for(px: (u8, u8, u8, u8), deep: bool, invert: bool) -> AsciiCell {
    AsciiCell { color: ColorType::Colored(px.0, px.1, px.2), glyph: glyph_for_pixel(px, deep, invert) }
}

/// The row of cells one grid row renders to in colorized mode.
pub open spec fn colored_line(row: Seq<(u8, u8, u8, u8)>, deep: bool, invert: bool) -> Seq<
    AsciiCell,
> {
    row.map_values(|px: (u8, u8, u8, u8)| colored_cell_for(px, deep, invert))
}

/// The rows of cells a grid renders to in colorized mode, top to bottom.
pub open spec fn colored_lines(grid: Seq<Seq<(u8, u8, u8, u8)>>, deep: bool, invert: bool) -> Seq<
    Seq<AsciiCell>,
> {
    grid.map_values(|row: Seq<(u8, u8, u8, u8)>| colored_line(row, deep, invert))
}

} // verus!
