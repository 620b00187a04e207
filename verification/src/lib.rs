//! Rendering core for a monochrome, page-addressed dot-matrix display.
//!
//! The library covers the three pieces that hold all the addressing
//! arithmetic and state: the bitmap font catalog, the page-addressed
//! frame buffer compositor, and the scrolling text-line buffer.
//! Transport to the device (command/data framing, initialization) is a
//! collaborator outside this crate: it consumes the bytes that
//! `FrameBuffer::snapshot` exposes.

use vstd::prelude::*;

pub mod font;
pub mod fontdata;
pub mod frame;
pub mod text;

verus! {

/// Number of pixel rows stacked in one byte of display memory.
pub const COLUMN_SIZE: usize = 8;

/// Display height in pixels; a multiple of `COLUMN_SIZE`.
pub const HEIGHT: usize = 64;

/// Display width in pixels.
pub const WIDTH: usize = 128;

/// Number of horizontal byte pages the display memory is divided into.
pub const PAGE: usize = HEIGHT / COLUMN_SIZE;

/// The display's two paint modes: lit pixels on a dark ground, or the
/// inverse.
#[derive(Clone, Copy, Debug, PartialEq, Eq, Structural)]
pub enum OLEDColorMode {
    ColorNormal,
    ColorReserved,
}

/// The control byte that selects a paint mode; the transport sends it
/// as a command.
pub fn color_mode_cmd(mode: OLEDColorMode) -> (r: u8)
    ensures
        mode == OLEDColorMode::ColorNormal ==> r == 0xa6,
        mode == OLEDColorMode::ColorReserved ==> r == 0xa7,
{
    match mode {
        OLEDColorMode::ColorNormal => 0xa6,
        OLEDColorMode::ColorReserved => 0xa7,
    }
}

} // verus!
