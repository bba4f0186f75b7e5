//! The one image format the panel takes.
//!
//! An image is shown as it is stored, so it has to have the panel's size and
//! two bits of gray per pixel. Anything else is turned away before a pixel
//! buffer is made of it.

use vstd::prelude::*;
use crate::panel::{PANEL_HEIGHT, PANEL_WIDTH, PIXEL_BUFFER_LEN};

verus! {

/// Bits per sample of a stored image.
#[derive(Clone, Copy, Debug, PartialEq, Eq, Structural)]
pub enum BitDepth {
    One,
    Two,
    Four,
    Eight,
    Sixteen,
}

/// Samples per pixel of a stored image and what they mean.
#[derive(Clone, Copy, Debug, PartialEq, Eq, Structural)]
pub enum ColorType {
    Grayscale,
    Rgb,
    Indexed,
    GrayscaleAlpha,
    Rgba,
}

/// Size and sample layout of a stored image.
#[derive(Clone, Copy, Debug, PartialEq, Eq, Structural)]
pub struct ImageFormat {
    pub width: u32,
    pub height: u32,
    pub bit_depth: BitDepth,
    pub color_type: ColorType,
}

/// An image was turned away because of its format.
#[derive(Clone, Copy, Debug, PartialEq, Eq, Structural)]
pub struct ImageLoadError {
    pub expected: ImageFormat,
    pub received: ImageFormat,
}

/// The format of an image that fits the panel: 128 by 296 pixels of two-bit
/// gray.
pub open spec fn panel_format() -> ImageFormat {
    ImageFormat {
        width: 128,
        height: 296,
        bit_depth: BitDepth::Two,
        color_type: ColorType::Grayscale,
    }
}

/// Number of bits in a sample of the given depth.
pub open spec fn depth_bits(depth: BitDepth) -> nat {
    match depth {
        BitDepth::One => 1,
        BitDepth::Two => 2,
        BitDepth::Four => 4,
        BitDepth::Eight => 8,
        BitDepth::Sixteen => 16,
    }
}

/// The format of an image that fits the panel.
pub fn expected_image_format() -> (format: ImageFormat)
    ensures
        format == panel_format(),
{
    ImageFormat {
        width: 128,
        height: 296,
        bit_depth: BitDepth::Two,
        color_type: ColorType::Grayscale,
    }
}

/// Accepts the format of an image that fits the panel and turns every other
/// format away, saying what was expected and what was found.
pub fn check_image_format(received: ImageFormat) -> (checked: Result<(), ImageLoadError>)
    ensures
        received == panel_format() ==> checked == Ok::<(), ImageLoadError>(()),
        received != panel_format() ==> checked == Err::<(), ImageLoadError>(
            ImageLoadError { expected: panel_format(), received },
        ),
{
    let expected = expected_image_format();
    if expected != received {
        return Err(ImageLoadError { expected, received });
    }
    Ok(())
}

/// An image in the panel's format has the panel's geometry, and its pixels
/// fill exactly one pixel buffer.
pub proof fn lemma_panel_format_fills_buffer()
    ensures
        panel_format().width == PANEL_WIDTH,
        panel_format().height == PANEL_HEIGHT,
        panel_format().width * panel_format().height * depth_bits(panel_format().bit_depth) == 8
            * PIXEL_BUFFER_LEN,
{
    assert(panel_format().width == 128 && panel_format().height == 296);
    assert(depth_bits(panel_format().bit_depth) == 2);
    assert(128 * 296 * 2 == 8 * 9472) by (nonlinear_arith);
}

} // verus!
