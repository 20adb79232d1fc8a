//! The glyph of the alarm: a fixed 5×5 greyscale face for the display.

use vstd::prelude::*;
use microbit::display::nonblocking::GreyscaleImage;

verus! {

/// Rows and columns of the display.
pub const GLYPH_SIZE: usize = 5;

/// The brightest level of a pixel; the darkest is 0.
pub const MAX_BRIGHTNESS: u8 = 9;

/// The image type of the display driver. Nothing of its inside is visible
/// here: `image_pixels` stands for what it holds.
#[verifier::external_type_specification]
#[verifier::external_body]
pub struct ExGreyscaleImage(GreyscaleImage);

/// The brightness values that an image holds: five rows, top first, of
/// five pixels each, left first.
pub uninterp spec fn image_pixels(image: GreyscaleImage) -> Seq<Seq<u8>>;

/// `GreyscaleImage::new` copies the array it is given: the image holds those
/// rows and pixels, in the same order.
pub assume_specification[ GreyscaleImage::new ](data: &[[u8; 5]; 5]) -> (image: GreyscaleImage)
    ensures
        image_pixels(image) == pixels_of(*data),
;

/// The rows of an array of pixels, as sequences.
pub open spec fn pixels_of(rows: [[u8; 5]; 5]) -> Seq<Seq<u8>> {
    Seq::new(5, |r: int| rows@[r]@)
}

/// The alarm face: a bright exclamation mark in a dim frame.
pub open spec fn alarm_face() -> Seq<Seq<u8>> {
    seq![
        seq![0u8, 1u8, 9u8, 1u8, 0u8],
        seq![0u8, 1u8, 9u8, 1u8, 0u8],
        seq![0u8, 1u8, 9u8, 1u8, 0u8],
        seq![0u8, 1u8, 1u8, 1u8, 0u8],
        seq![0u8, 1u8, 9u8, 1u8, 0u8],
    ]
}

/// The cleared display: every pixel dark.
pub open spec fn blank_face() -> Seq<Seq<u8>> {
    Seq::new(5, |r: int| Seq::new(5, |c: int| 0u8))
}

/// A grid of pixels that the display can show: five rows of five, each
/// pixel a brightness level from 0 to 9.
pub open spec fn displayable(pixels: Seq<Seq<u8>>) -> bool {
    &&& pixels.len() == GLYPH_SIZE
    &&& forall|r: int| 0 <= r < GLYPH_SIZE ==> (#[trigger] pixels[r]).len() == GLYPH_SIZE
    &&& forall|r: int, c: int|
        0 <= r < GLYPH_SIZE && 0 <= c < GLYPH_SIZE ==> #[trigger] pixels[r][c] <= MAX_BRIGHTNESS
}

/// The rows of the alarm face, top first.
pub fn alarm_rows() -> (rows: [[u8; 5]; 5])
    ensures
        pixels_of(rows) == alarm_face(),
        displayable(pixels_of(rows)),
{
    let rows: [[u8; 5]; 5] = [
        [0, 1, 9, 1, 0],
        [0, 1, 9, 1, 0],
        [0, 1, 9, 1, 0],
        [0, 1, 1, 1, 0],
        [0, 1, 9, 1, 0],
    ];
    proof {
        assert(pixels_of(rows) =~~= alarm_face());
    }
    rows
}

/// The rows of the cleared display.
pub fn blank_rows() -> (rows: [[u8; 5]; 5])
    ensures
        pixels_of(rows) == blank_face(),
        displayable(pixels_of(rows)),
{
    let rows: [[u8; 5]; 5] = [
        [0, 0, 0, 0, 0],
        [0, 0, 0, 0, 0],
        [0, 0, 0, 0, 0],
        [0, 0, 0, 0, 0],
        [0, 0, 0, 0, 0],
    ];
    proof {
        assert(pixels_of(rows) =~~= blank_face());
    }
    rows
}

/// The image shown while the alarm is raised: the alarm face, as the
/// display driver takes it.
pub fn get_default_grayscale_image() -> (image: GreyscaleImage)
    ensures
        image_pixels(image) == alarm_face(),
        displayable(image_pixels(image)),
{
    let rows = alarm_rows();
    GreyscaleImage::new(&rows)
}

} // verus!
