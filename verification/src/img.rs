use vstd::prelude::*;
use image::DynamicImage;

verus! {

#[verifier::external_type_specification]
#[verifier::external_body]
pub struct ExDynamicImage(DynamicImage);

/// The pixel grid a decoded image holds: one row per image row, top to
/// bottom; within a row one `(red, green, blue, alpha)` tuple per column,
/// left to right.
pub uninterp spec fn grid_of(img: DynamicImage) -> Seq<Seq<(u8, u8, u8, u8)>>;

/// The pixel grid that nearest-neighbor resampling of a nonempty `grid` to
/// `width` columns and `height` rows produces.  Nothing is claimed of it for
/// an empty grid: there the resampler hands back a zero-filled buffer in the
/// image's native channel layout, which the grid alone does not determine.
pub uninterp spec fn nearest_resized(
    grid: Seq<Seq<(u8, u8, u8, u8)>>,
    width: int,
    height: int,
) -> Seq<Seq<(u8, u8, u8, u8)>>;

/// Relies on image::GenericImageView::dimensions: returns the width and
/// height of the image, the extent of the coordinates its pixels are read at.
#[verifier::external_body]
pub(crate) fn image_dimensions(img: &DynamicImage) -> (dims: (u32, u32))
    ensures
        grid_of(*img).len() == dims.1 as int,
        forall|y: int|
            0 <= y < grid_of(*img).len() ==> (#[trigger] grid_of(*img)[y]).len() == dims.0 as int,
{
    image::GenericImageView::dimensions(img)
}

/// Relies on image::GenericImageView::get_pixel: returns the RGBA channels
/// of the pixel in column `x` of row `y`.
#[verifier::external_body]
pub(crate) fn image_pixel(img: &DynamicImage, x: u32, y: u32) -> (px: (u8, u8, u8, u8))
    requires
        y < grid_of(*img).len(),
        x < grid_of(*img)[y as int].len(),
    ensures
        px == grid_of(*img)[y as int][x as int],
{
    let p = image::GenericImageView::get_pixel(img, x, y);
    (p[0], p[1], p[2], p[3])
}

/// Relies on image::DynamicImage::resize_exact with nearest-neighbor
/// filtering: returns a new image of exactly the requested dimensions.  When
/// the source holds at least one pixel, every result pixel is one source
/// pixel picked by position, so the result grid is a function of the input
/// grid and the requested dimensions alone; a zero-area source yields a
/// zero-filled buffer whose RGBA reading depends on the image's native
/// channel layout, so nothing is claimed of the contents there.
#[verifier::external_body]
pub(crate) fn image_resize_nearest(img: &DynamicImage, width: u32, height: u32) -> (resized:
    DynamicImage)
    requires
        width >= 1,
        height >= 1,
    ensures
        grid_of(*img).len() >= 1 && grid_of(*img)[0].len() >= 1 ==> grid_of(resized)
            == nearest_resized(grid_of(*img), width as int, height as int),
        grid_of(resized).len() == height as int,
        forall|y: int|
            0 <= y < grid_of(resized).len() ==> (#[trigger] grid_of(resized)[y]).len()
                == width as int,
{
    img.resize_exact(width, height, image::imageops::FilterType::Nearest)
}

} // verus!
