use asciify::{compute_brightness, Pixel};

const BRIGHTNESS_ONE: u32 = 195075;

fn px(r: u8, g: u8, b: u8, a: u8) -> Pixel {
    Pixel { r, g, b, a }
}

#[test]
fn brightness_of_black_is_zero() {
    assert_eq!(compute_brightness(&px(0, 0, 0, 255)), 0);
}

#[test]
fn brightness_of_white_is_full() {
    assert_eq!(compute_brightness(&px(255, 255, 255, 255)), BRIGHTNESS_ONE);
}

#[test]
fn brightness_is_channel_sum_times_alpha() {
    // (10 + 20 + 30) * 255 out of 3 * 255 * 255: an average of 20/255,
    // fully opaque.
    assert_eq!(compute_brightness(&px(10, 20, 30, 255)), 60 * 255);
    // Half transparency halves the numerator (alpha 128 of 255).
    assert_eq!(compute_brightness(&px(10, 20, 30, 128)), 60 * 128);
}

#[test]
fn brightness_of_transparent_is_zero_regardless_of_color() {
    assert_eq!(compute_brightness(&px(255, 255, 255, 0)), 0);
    assert_eq!(compute_brightness(&px(17, 200, 3, 0)), 0);
}

#[test]
fn brightness_never_exceeds_full() {
    for r in [0u8, 1, 127, 255] {
        for a in [0u8, 1, 128, 255] {
            let b = compute_brightness(&px(r, r, r, a));
            assert!(b <= BRIGHTNESS_ONE);
        }
    }
}
