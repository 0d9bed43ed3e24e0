use vstd::prelude::*;
use image::DynamicImage;
use crate::img::{grid_of, image_dimensions, image_pixel, image_resize_nearest, nearest_resized};
use crate::pixel::Pixel;
use crate::point::{ascii_char_for_point, colored_point_for_pixel, gray_point_for_pixel};
use crate::render::{
    colored_cell_for, colored_lines, joined, lemma_joined_push, rendered_line, rendered_lines,
    rendered_text, AsciiCell,
};

verus! {

/// Why a rendering operation failed.
#[derive(Clone, Copy, PartialEq, Eq, Structural, Debug)]
pub enum AsciiError {
    /// A resize was requested with a zero width or height.
    InvalidDimensions { width: u32, height: u32 },
}

/// Relies on String::push: appends one character at the end of the string.
#[verifier::external_body]
fn push_char(s: &mut String, c: char)
    ensures
        final(s)@ == old(s)@.push(c),
{
    s.push(c);
}

/// Immutable configuration around a decoded image: which character scale to
/// use, whether to invert it, and the image itself.  Each setter consumes the
/// builder and returns the updated one; rendering never changes it.
pub struct AsciiBuilder {
    pub image: DynamicImage,
    pub deep: bool,
    pub invert: bool,
}

/// Renders one grid row into a line of characters.
fn render_row(img: &DynamicImage, y: u32, width: u32, deep: bool, invert: bool) -> (line: String)
    requires
        y < grid_of(*img).len(),
        grid_of(*img)[y as int].len() == width as int,
    ensures
        line@ == rendered_line(grid_of(*img)[y as int], deep, invert),
{
    let ghost row = grid_of(*img)[y as int];
    let ghost spec_line = rendered_line(row, deep, invert);
    let mut line = String::new();
    let mut x: u32 = 0;
    while x < width
        invariant
            x <= width,
            y < grid_of(*img).len(),
            grid_of(*img)[y as int].len() == width as int,
            row == grid_of(*img)[y as int],
            spec_line == rendered_line(row, deep, invert),
            line@ == spec_line.take(x as int),
        decreases width - x,
    {
        let px = image_pixel(img, x, y);
        let point = gray_point_for_pixel(&Pixel { r: px.0, g: px.1, b: px.2, a: px.3 });
        let c = ascii_char_for_point(point, deep, invert);
        proof {
            assert(spec_line.take(x as int).push(c) =~= spec_line.take(x as int + 1));
        }
        push_char(&mut line, c);
        x = x + 1;
    }
    proof {
        assert(spec_line.take(width as int) =~= spec_line);
    }
    line
}

impl AsciiBuilder {
    /// Wraps an already decoded image with the default configuration: the
    /// shallow character scale, not inverted.
    pub fn new_from_image(image: DynamicImage) -> (builder: Self)
        ensures
            builder.image == image,
            !builder.deep,
            !builder.invert,
    {
        AsciiBuilder { image, deep: false, invert: false }
    }

    /// Selects the deep (65 character) or shallow (10 character) scale.
    pub fn set_deep(self, deep: bool) -> (builder: Self)
        ensures
            builder.image == self.image,
            builder.deep == deep,
            builder.invert == self.invert,
    {
        AsciiBuilder { deep, ..self }
    }

    /// Selects whether the character scale is read bright-to-dark instead of
    /// dark-to-bright.
    pub fn set_invert(self, invert: bool) -> (builder: Self)
        ensures
            builder.image == self.image,
            builder.deep == self.deep,
            builder.invert == invert,
    {
        AsciiBuilder { invert, ..self }
    }

    /// Resizes the held image to the given `(width, height)` with
    /// nearest-neighbor sampling.  A zero width or height is rejected with
    /// `AsciiError::InvalidDimensions` and leaves no output behind.  The
    /// resampled contents are pinned for sources holding at least one pixel;
    /// a zero-area source still resizes to the requested dimensions, but its
    /// zero-filled contents are not a function of the pixel grid alone.
    pub fn set_resize(self, resize: (u32, u32)) -> (result: Result<Self, AsciiError>)
        ensures
            match result {
                Ok(builder) => {
                    &&& resize.0 >= 1
                    &&& resize.1 >= 1
                    &&& builder.deep == self.deep
                    &&& builder.invert == self.invert
                    &&& grid_of(self.image).len() >= 1 && grid_of(self.image)[0].len() >= 1
                        ==> grid_of(builder.image) == nearest_resized(
                        grid_of(self.image),
                        resize.0 as int,
                        resize.1 as int,
                    )
                    &&& grid_of(builder.image).len() == resize.1 as int
                    &&& forall|y: int|
                        0 <= y < grid_of(builder.image).len() ==> (#[trigger] grid_of(
                            builder.image,
                        )[y]).len() == resize.0 as int
                },
                Err(e) => {
                    &&& (resize.0 == 0 || resize.1 == 0)
                    &&& e == (AsciiError::InvalidDimensions { width: resize.0, height: resize.1 })
                },
            },
    {
        if resize.0 == 0 || resize.1 == 0 {
            Err(AsciiError::InvalidDimensions { width: resize.0, height: resize.1 })
        } else {
            let resized = image_resize_nearest(&self.image, resize.0, resize.1);
            Ok(AsciiBuilder { image: resized, deep: self.deep, invert: self.invert })
        }
    }

    /// Renders the image as plain text: one line of characters per grid row,
    /// top to bottom, lines joined by a single line break with no trailing
    /// break.
    pub fn build(&self) -> (text: String)
        ensures
            text@ == rendered_text(grid_of(self.image), self.deep, self.invert),
    {
        let (width, height) = image_dimensions(&self.image);
        let ghost grid = grid_of(self.image);
        let ghost lines = rendered_lines(grid, self.deep, self.invert);
        let mut out = String::new();
        let mut y: u32 = 0;
        while y < height
            invariant
                y <= height,
                grid == grid_of(self.image),
                grid.len() == height as int,
                forall|i: int| 0 <= i < grid.len() ==> (#[trigger] grid[i]).len() == width as int,
                lines == rendered_lines(grid, self.deep, self.invert),
                out@ == joined(lines.take(y as int)),
            decreases height - y,
        {
            if y > 0 {
                push_char(&mut out, '\n');
            }
            let line = render_row(&self.image, y, width, self.deep, self.invert);
            out.append(line.as_str());
            proof {
                lemma_joined_push(lines.take(y as int), lines[y as int]);
                assert(lines.take(y as int).push(lines[y as int]) =~= lines.take(y as int + 1));
                if y == 0 {
                    assert(out@ =~= joined(lines.take(y as int + 1)));
                }
            }
            y = y + 1;
        }
        proof {
            assert(lines.take(height as int) =~= lines);
        }
        out
    }

    /// Renders the image as one string per grid row, top to bottom, without
    /// line breaks: what a plain stream writer emits line by line.
    pub fn build_lines(&self) -> (lines: Vec<String>)
        ensures
            lines@.len() == grid_of(self.image).len(),
            forall|y: int|
                0 <= y < lines@.len() ==> (#[trigger] lines@[y])@ == rendered_lines(
                    grid_of(self.image),
                    self.deep,
                    self.invert,
                )[y],
    {
        let (width, height) = image_dimensions(&self.image);
        let ghost grid = grid_of(self.image);
        let ghost spec_lines = rendered_lines(grid, self.deep, self.invert);
        let mut lines: Vec<String> = Vec::new();
        let mut y: u32 = 0;
        while y < height
            invariant
                y <= height,
                grid == grid_of(self.image),
                grid.len() == height as int,
                forall|i: int| 0 <= i < grid.len() ==> (#[trigger] grid[i]).len() == width as int,
                spec_lines == rendered_lines(grid, self.deep, self.invert),
                lines@.len() == y as int,
                forall|i: int|
                    0 <= i < y as int ==> (#[trigger] lines@[i])@ == spec_lines[i],
            decreases height - y,
        {
            let line = render_row(&self.image, y, width, self.deep, self.invert);
            lines.push(line);
            y = y + 1;
        }
        lines
    }

    /// Renders the image as one row of cells per grid row, each cell a
    /// character and the foreground color to print it in: what a colorized
    /// stream writer emits cell by cell.
    pub fn build_colored(&self) -> (cells: Vec<Vec<AsciiCell>>)
        ensures
            cells@.len() == grid_of(self.image).len(),
            forall|y: int|
                0 <= y < cells@.len() ==> (#[trigger] cells@[y])@ == colored_lines(
                    grid_of(self.image),
                    self.deep,
                    self.invert,
                )[y],
    {
        let (width, height) = image_dimensions(&self.image);
        let ghost grid = grid_of(self.image);
        let ghost spec_rows = colored_lines(grid, self.deep, self.invert);
        let mut cells: Vec<Vec<AsciiCell>> = Vec::new();
        let mut y: u32 = 0;
        while y < height
            invariant
                y <= height,
                grid == grid_of(self.image),
                grid.len() == height as int,
                forall|i: int| 0 <= i < grid.len() ==> (#[trigger] grid[i]).len() == width as int,
                spec_rows == colored_lines(grid, self.deep, self.invert),
                cells@.len() == y as int,
                forall|i: int|
                    0 <= i < y as int ==> (#[trigger] cells@[i])@ == spec_rows[i],
            decreases height - y,
        {
            let ghost row = grid[y as int];
            let ghost spec_row = spec_rows[y as int];
            let mut line: Vec<AsciiCell> = Vec::new();
            let mut x: u32 = 0;
            while x < width
                invariant
                    x <= width,
                    y < grid.len(),
                    grid == grid_of(self.image),
                    grid[y as int].len() == width as int,
                    row == grid[y as int],
                    spec_row == colored_lines(grid, self.deep, self.invert)[y as int],
                    spec_rows == colored_lines(grid, self.deep, self.invert),
                    line@.len() == x as int,
                    forall|i: int| 0 <= i < x as int ==> line@[i] == spec_row[i],
                decreases width - x,
            {
                let px = image_pixel(&self.image, x, y);
                let point = colored_point_for_pixel(
                    &Pixel { r: px.0, g: px.1, b: px.2, a: px.3 },
                );
                let glyph = ascii_char_for_point(point, self.deep, self.invert);
                line.push(AsciiCell { color: point.color, glyph });
                proof {
                    assert(spec_row[x as int] == colored_cell_for(
                        row[x as int],
                        self.deep,
                        self.invert,
                    ));
                }
                x = x + 1;
            }
            cells.push(line);
            proof {
                assert(cells@.last()@ =~= spec_row);
            }
            y = y + 1;
        }
        cells
    }
}

} // verus!
