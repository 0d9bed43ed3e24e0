use asciify::{AsciiBuilder, AsciiError, ColorType};
use image::{DynamicImage, Rgba, RgbaImage};

fn image_from_pixels(width: u32, height: u32, pixels: &[[u8; 4]]) -> DynamicImage {
    let mut img = RgbaImage::new(width, height);
    for y in 0..height {
        for x in 0..width {
            img.put_pixel(x, y, Rgba(pixels[(y * width + x) as usize]));
        }
    }
    DynamicImage::ImageRgba8(img)
}

fn checker_2x2() -> DynamicImage {
    image_from_pixels(
        2,
        2,
        &[[0, 0, 0, 255], [255, 255, 255, 255], [0, 0, 0, 255], [255, 255, 255, 255]],
    )
}

#[test]
fn checkerboard_renders_dark_and_bright() {
    let text = AsciiBuilder::new_from_image(checker_2x2()).build();
    assert_eq!(text, " @\n @");
}

#[test]
fn checkerboard_inverted_mirrors_selection() {
    let text = AsciiBuilder::new_from_image(checker_2x2()).set_invert(true).build();
    assert_eq!(text, "@ \n@ ");
}

#[test]
fn checkerboard_deep_uses_deep_scale() {
    let text = AsciiBuilder::new_from_image(checker_2x2()).set_deep(true).build();
    assert_eq!(text, " $\n $");
}

#[test]
fn transparent_pixel_renders_darkest() {
    // A fully transparent pixel, whatever its color, renders as the darkest
    // character when not inverted.
    let img = image_from_pixels(
        2,
        1,
        &[[200, 130, 90, 0], [255, 255, 255, 255]],
    );
    let text = AsciiBuilder::new_from_image(img).build();
    assert_eq!(text, " @");
}

#[test]
fn rendering_is_deterministic() {
    let builder = AsciiBuilder::new_from_image(checker_2x2()).set_deep(true).set_invert(true);
    let first = builder.build();
    let second = builder.build();
    assert_eq!(first, second);
}

#[test]
fn output_dimensions_match_the_grid() {
    let img = image_from_pixels(
        3,
        2,
        &[
            [0, 0, 0, 255],
            [120, 120, 120, 255],
            [255, 255, 255, 255],
            [10, 20, 30, 255],
            [200, 200, 200, 255],
            [0, 0, 0, 0],
        ],
    );
    let text = AsciiBuilder::new_from_image(img).build();
    let lines: Vec<&str> = text.split('\n').collect();
    assert_eq!(lines.len(), 2);
    for line in lines {
        assert_eq!(line.chars().count(), 3);
    }
}

#[test]
fn resize_then_render_has_requested_dimensions() {
    let img = image_from_pixels(
        3,
        2,
        &[
            [0, 0, 0, 255],
            [120, 120, 120, 255],
            [255, 255, 255, 255],
            [10, 20, 30, 255],
            [200, 200, 200, 255],
            [90, 90, 90, 255],
        ],
    );
    let text = AsciiBuilder::new_from_image(img).set_resize((4, 5)).unwrap().build();
    let lines: Vec<&str> = text.split('\n').collect();
    assert_eq!(lines.len(), 5);
    for line in lines {
        assert_eq!(line.chars().count(), 4);
    }
}

#[test]
fn resize_resamples_the_pixels() {
    // Blowing a single white pixel up to 3x2 must read the source pixel,
    // not hand anything back unchanged: every cell is the brightest glyph.
    let img = image_from_pixels(1, 1, &[[255, 255, 255, 255]]);
    let text = AsciiBuilder::new_from_image(img).set_resize((3, 2)).unwrap().build();
    assert_eq!(text, "@@@\n@@@");
}

#[test]
fn resize_with_zero_width_fails() {
    let result = AsciiBuilder::new_from_image(checker_2x2()).set_resize((0, 5));
    match result {
        Err(AsciiError::InvalidDimensions { width, height }) => {
            assert_eq!(width, 0);
            assert_eq!(height, 5);
        }
        Ok(_) => panic!("a zero width must be rejected"),
    }
}

#[test]
fn resize_with_zero_height_fails() {
    let result = AsciiBuilder::new_from_image(checker_2x2()).set_resize((7, 0));
    assert!(matches!(result, Err(AsciiError::InvalidDimensions { width: 7, height: 0 })));
}

#[test]
fn build_lines_returns_the_rows_unjoined() {
    let lines = AsciiBuilder::new_from_image(checker_2x2()).build_lines();
    assert_eq!(lines.len(), 2);
    assert_eq!(lines[0], " @");
    assert_eq!(lines[1], " @");
}

#[test]
fn colored_cells_keep_the_original_color() {
    let img = image_from_pixels(
        2,
        1,
        &[[200, 130, 90, 0], [255, 0, 0, 255]],
    );
    let cells = AsciiBuilder::new_from_image(img).build_colored();
    assert_eq!(cells.len(), 1);
    assert_eq!(cells[0].len(), 2);
    // The color tag keeps the channels of the original pixel even where
    // alpha drove the brightness to zero.
    assert_eq!(cells[0][0].color, ColorType::Colored(200, 130, 90));
    assert_eq!(cells[0][0].glyph, ' ');
    assert_eq!(cells[0][1].color, ColorType::Colored(255, 0, 0));
    // An opaque pure red pixel: numerator 255 * 255 = 65025, a third of
    // full brightness; shallow index floor(65025 * 99999 / 1950750000) = 3.
    assert_eq!(cells[0][1].glyph, '-');
}

#[test]
fn empty_render_of_zero_rows() {
    let img = DynamicImage::ImageRgba8(RgbaImage::new(0, 0));
    let text = AsciiBuilder::new_from_image(img).build();
    assert_eq!(text, "");
}
