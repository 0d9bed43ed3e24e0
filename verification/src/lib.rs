pub mod builder;
pub mod img;
pub mod laws;
pub mod palette;
pub mod pixel;
pub mod point;
pub mod render;

pub use builder::AsciiBuilder;
pub use builder::AsciiError;
pub use render::AsciiCell;
pub use pixel::Pixel;
pub use pixel::compute_brightness;
pub use point::AsciiPoint;
pub use point::ColorType;
pub use point::ascii_char_for_point;
pub use point::colored_point_for_pixel;
pub use point::gray_point_for_pixel;
