use fall_alarm::glyph::{alarm_rows, blank_rows, get_default_grayscale_image, GLYPH_SIZE, MAX_BRIGHTNESS};
use tiny_led_matrix::Render;

const FACE: [[u8; 5]; 5] = [
    [0, 1, 9, 1, 0],
    [0, 1, 9, 1, 0],
    [0, 1, 9, 1, 0],
    [0, 1, 1, 1, 0],
    [0, 1, 9, 1, 0],
];

#[test]
fn default_image_is_the_alarm_face() {
    let image = get_default_grayscale_image();
    for y in 0..5 {
        for x in 0..5 {
            assert_eq!(image.brightness_at(x, y), FACE[y][x], "pixel {} {}", x, y);
        }
    }
}

#[test]
fn default_image_is_not_symmetric_top_to_bottom() {
    // Row 3 is the gap of the exclamation mark: rows and columns must not
    // be swapped on the way to the driver.
    let image = get_default_grayscale_image();
    assert_eq!(image.brightness_at(2, 3), 1);
    assert_eq!(image.brightness_at(3, 2), 1);
    assert_eq!(image.brightness_at(2, 4), 9);
    assert_eq!(image.brightness_at(4, 2), 0);
}

#[test]
fn alarm_rows_are_the_alarm_face() {
    assert_eq!(alarm_rows(), FACE);
}

#[test]
fn blank_rows_are_dark() {
    assert_eq!(blank_rows(), [[0u8; 5]; 5]);
}

#[test]
fn pixels_are_brightness_levels() {
    assert_eq!(GLYPH_SIZE, 5);
    assert_eq!(MAX_BRIGHTNESS, 9);
    assert_eq!(MAX_BRIGHTNESS, tiny_led_matrix::MAX_BRIGHTNESS);
    for row in alarm_rows() {
        assert_eq!(row.len(), GLYPH_SIZE);
        for pixel in row {
            assert!(pixel <= MAX_BRIGHTNESS);
        }
    }
}
