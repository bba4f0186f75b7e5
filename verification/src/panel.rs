//! Fixed geometry of the 128 x 296 panel and the color modes it is driven in.

use vstd::prelude::*;

verus! {

/// Panel width in pixels.
pub const PANEL_WIDTH: usize = 128;

/// Panel height in pixels.
pub const PANEL_HEIGHT: usize = 296;

/// Bytes in one bit plane: one bit per pixel.
pub const PLANE_LEN: usize = 4736;

/// Bytes in a pixel buffer: two bits per pixel.
pub const PIXEL_BUFFER_LEN: usize = 9472;

/// Bytes in one row of a bit plane.
pub const ROW_LEN: usize = 16;

/// How many gray levels the controller is configured to render.
#[derive(Clone, Copy, Debug, PartialEq, Eq, Structural)]
pub enum ColorResolution {
    BlackAndWhiteMonochrome,
    FourColorGrayscale,
}

/// The plane and buffer sizes follow from the panel geometry.
pub proof fn lemma_panel_geometry()
    ensures
        PLANE_LEN * 8 == PANEL_WIDTH * PANEL_HEIGHT,
        PIXEL_BUFFER_LEN * 8 == PANEL_WIDTH * PANEL_HEIGHT * 2,
        PIXEL_BUFFER_LEN == 2 * PLANE_LEN,
        ROW_LEN * 8 == PANEL_WIDTH,
        ROW_LEN * PANEL_HEIGHT == PLANE_LEN,
{
}

} // verus!
