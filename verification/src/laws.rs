use vstd::prelude::*;
use crate::palette::{
    glyph_spec, lemma_palette_len, lemma_scaled_index_in_range, max_index, palette, selected_index,
};
use crate::pixel::{brightness_of, BRIGHTNESS_ONE};
use crate::render::{joined, rendered_lines, rendered_text};

verus! {

/// Every valid pixel has a brightness between zero and full brightness, and
/// a fully transparent pixel has brightness zero whatever its color.
pub proof fn lemma_brightness_in_range(r: u8, g: u8, b: u8, a: u8)
    ensures
        0 <= brightness_of(r, g, b, a) <= BRIGHTNESS_ONE,
        a == 0 ==> brightness_of(r, g, b, a) == 0,
{
    assert(0 <= (r + g + b) * a <= 765 * 255 && (a == 0 ==> (r + g + b) * a == 0))
        by (nonlinear_arith)
        requires
            0 <= r + g + b <= 765,
            0 <= a <= 255,
    ;
}

/// For every brightness in range and either palette, the selected index
/// stays within the palette; without inversion, brightness zero selects the
/// first index and full brightness the last.
pub proof fn lemma_selected_index_in_range(bright: int, deep: bool, invert: bool)
    requires
        0 <= bright <= BRIGHTNESS_ONE,
    ensures
        0 <= selected_index(bright, deep, invert) <= max_index(deep),
        bright == 0 && !invert ==> selected_index(bright, deep, invert) == 0,
        bright == BRIGHTNESS_ONE && !invert ==> selected_index(bright, deep, invert) == max_index(
            deep,
        ),
{
    lemma_scaled_index_in_range(bright, deep);
}

/// Inversion reflects the selection: for every brightness in range, the
/// index selected with inversion is the palette's last index minus the index
/// selected without it.
pub proof fn lemma_invert_reflects(bright: int, deep: bool)
    requires
        0 <= bright <= BRIGHTNESS_ONE,
    ensures
        selected_index(bright, deep, true) == max_index(deep) - selected_index(
            bright,
            deep,
            false,
        ),
{
}

/// The selected character always comes from the palette the deep flag
/// chose: a deep rendering draws from the deep scale alone, a shallow one
/// from the shallow scale alone.
pub proof fn lemma_glyph_from_selected_palette(bright: int, deep: bool, invert: bool)
    requires
        0 <= bright <= BRIGHTNESS_ONE,
    ensures
        palette(deep).contains(glyph_spec(bright, deep, invert)),
{
    lemma_palette_len(deep);
    lemma_scaled_index_in_range(bright, deep);
    let idx = selected_index(bright, deep, invert);
    assert(0 <= idx < palette(deep).len() && palette(deep)[idx] == glyph_spec(
        bright,
        deep,
        invert,
    ));
}

/// Rendering is deterministic: the rendered text is a function of the pixel
/// grid and the configuration alone, so two renders of the same image with
/// the same configuration are byte-identical.
pub proof fn lemma_render_deterministic(
    grid1: Seq<Seq<(u8, u8, u8, u8)>>,
    grid2: Seq<Seq<(u8, u8, u8, u8)>>,
    deep: bool,
    invert: bool,
)
    requires
        grid1 == grid2,
    ensures
        rendered_text(grid1, deep, invert) == rendered_text(grid2, deep, invert),
{
}

/// A rendering has one line per grid row, and each line one character per
/// pixel of its row.
pub proof fn lemma_rendered_dimensions(grid: Seq<Seq<(u8, u8, u8, u8)>>, deep: bool, invert: bool)
    ensures
        rendered_lines(grid, deep, invert).len() == grid.len(),
        forall|y: int|
            0 <= y < grid.len() ==> (#[trigger] rendered_lines(grid, deep, invert)[y]).len()
                == grid[y].len(),
{
}

/// A grid of `height` rows of `width` pixels each renders to exactly
/// `height` lines of `width` characters each: what rendering after a resize
/// to `(width, height)` yields.
pub proof fn lemma_resized_render_dimensions(
    grid: Seq<Seq<(u8, u8, u8, u8)>>,
    deep: bool,
    invert: bool,
    width: int,
    height: int,
)
    requires
        grid.len() == height,
        forall|y: int| 0 <= y < grid.len() ==> (#[trigger] grid[y]).len() == width,
    ensures
        rendered_lines(grid, deep, invert).len() == height,
        forall|y: int|
            0 <= y < height ==> (#[trigger] rendered_lines(grid, deep, invert)[y]).len() == width,
{
    lemma_rendered_dimensions(grid, deep, invert);
}

/// Joining `count` lines of `width` characters each yields a text of
/// exactly `count * width` characters plus the `count - 1` separating line
/// breaks.
pub proof fn lemma_joined_text_len(lines: Seq<Seq<char>>, width: int)
    requires
        lines.len() >= 1,
        width >= 0,
        forall|i: int| 0 <= i < lines.len() ==> (#[trigger] lines[i]).len() == width,
    ensures
        joined(lines).len() == lines.len() * width + lines.len() - 1,
    decreases lines.len(),
{
    if lines.len() == 1 {
        assert(lines.len() * width == width) by (nonlinear_arith)
            requires
                lines.len() == 1,
        ;
    } else {
        lemma_joined_text_len(lines.drop_last(), width);
        assert((lines.len() - 1) * width + width == lines.len() * width) by (nonlinear_arith);
    }
}

} // verus!
