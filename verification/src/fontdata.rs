//! The compiled-in glyph tables: one catalog entry per supported
//! pixel height. Each table holds, for every printable-ASCII character
//! from space through `~`, one `rows x width` cell of column bytes
//! (bit 0 topmost), row-major; the extra repertoire holds the degree
//! sign for temperature readouts.

use vstd::prelude::*;

use crate::font::Font;

verus! {

impl Font {
    /// The 8-pixel-high font: 6-pixel-wide ASCII cells, one byte row.
    pub fn font8() -> (r: Font)
        ensures
            r.wf(),
            r.height == 8,
            r.width == 6,
            r.ext_width == 6,
            r.ext_chars@ == seq!['\u{b0}'],
    {
        let mut ascii: Vec<u8> = vec![
            0x00, 0x00, 0x00, 0x00, 0x00, 0x00, 0x00, 0x00, 0x5f, 0x00, 0x00, 0x00, 0x00, 0x07, 0x00, 0x07,
            0x00, 0x00, 0x14, 0x7f, 0x14, 0x7f, 0x14, 0x00, 0x24, 0x2a, 0x7f, 0x2a, 0x12, 0x00, 0x23, 0x13,
            0x08, 0x64, 0x62, 0x00, 0x36, 0x49, 0x55, 0x22, 0x50, 0x00, 0x00, 0x05, 0x03, 0x00, 0x00, 0x00,
            0x00, 0x1c, 0x22, 0x41, 0x00, 0x00, 0x00, 0x41, 0x22, 0x1c, 0x00, 0x00, 0x14, 0x08, 0x3e, 0x08,
            0x14, 0x00, 0x08, 0x08, 0x3e, 0x08, 0x08, 0x00, 0x00, 0x50, 0x30, 0x00, 0x00, 0x00, 0x08, 0x08,
            0x08, 0x08, 0x08, 0x00, 0x00, 0x60, 0x60, 0x00, 0x00, 0x00, 0x20, 0x10, 0x08, 0x04, 0x02, 0x00,
            0x3e, 0x51, 0x49, 0x45, 0x3e, 0x00, 0x00, 0x42, 0x7f, 0x40, 0x00, 0x00, 0x42, 0x61, 0x51, 0x49,
            0x46, 0x00, 0x21, 0x41, 0x45, 0x4b, 0x31, 0x00, 0x18, 0x14, 0x12, 0x7f, 0x10, 0x00, 0x27, 0x45,
            0x45, 0x45, 0x39, 0x00, 0x3c, 0x4a, 0x49, 0x49, 0x30, 0x00, 0x01, 0x71, 0x09, 0x05, 0x03, 0x00,
            0x36, 0x49, 0x49, 0x49, 0x36, 0x00, 0x06, 0x49, 0x49, 0x29, 0x1e, 0x00, 0x00, 0x36, 0x36, 0x00,
            0x00, 0x00, 0x00, 0x56, 0x36, 0x00, 0x00, 0x00, 0x08, 0x14, 0x22, 0x41, 0x00, 0x00, 0x14, 0x14,
            0x14, 0x14, 0x14, 0x00, 0x00, 0x41, 0x22, 0x14, 0x08, 0x00, 0x02, 0x01, 0x51, 0x09, 0x06, 0x00,
            0x32, 0x49, 0x79, 0x41, 0x3e, 0x00, 0x7e, 0x11, 0x11, 0x11, 0x7e, 0x00, 0x7f, 0x49, 0x49, 0x49,
            0x36, 0x00, 0x3e, 0x41, 0x41, 0x41, 0x22, 0x00, 0x7f, 0x41, 0x41, 0x22, 0x1c, 0x00, 0x7f, 0x49,
            0x49, 0x49, 0x41, 0x00, 0x7f, 0x09, 0x09, 0x09, 0x01, 0x00, 0x3e, 0x41, 0x49, 0x49, 0x7a, 0x00,
            0x7f, 0x08, 0x08, 0x08, 0x7f, 0x00, 0x00, 0x41, 0x7f, 0x41, 0x00, 0x00, 0x20, 0x40, 0x41, 0x3f,
            0x01, 0x00, 0x7f, 0x08, 0x14, 0x22, 0x41, 0x00, 0x7f, 0x40, 0x40, 0x40, 0x40, 0x00, 0x7f, 0x02,
            0x0c, 0x02, 0x7f, 0x00, 0x7f, 0x04, 0x08, 0x10, 0x7f, 0x00, 0x3e, 0x41, 0x41, 0x41, 0x3e, 0x00,
            0x7f, 0x09, 0x09, 0x09, 0x06, 0x00, 0x3e, 0x41, 0x51, 0x21, 0x5e, 0x00, 0x7f, 0x09, 0x19, 0x29,
            0x46, 0x00, 0x46, 0x49, 0x49, 0x49, 0x31, 0x00, 0x01, 0x01, 0x7f, 0x01, 0x01, 0x00, 0x3f, 0x40,
            0x40, 0x40, 0x3f, 0x00, 0x1f, 0x20, 0x40, 0x20, 0x1f, 0x00, 0x3f, 0x40, 0x38, 0x40, 0x3f, 0x00,
            0x63, 0x14, 0x08, 0x14, 0x63, 0x00, 0x07, 0x08, 0x70, 0x08, 0x07, 0x00, 0x61, 0x51, 0x49, 0x45,
            0x43, 0x00, 0x00, 0x7f, 0x41, 0x41, 0x00, 0x00, 0x02, 0x04, 0x08, 0x10, 0x20, 0x00, 0x00, 0x41,
            0x41, 0x7f, 0x00, 0x00, 0x04, 0x02, 0x01, 0x02, 0x04, 0x00, 0x40, 0x40, 0x40, 0x40, 0x40, 0x00,
        ];
        let mut ascii_part1: Vec<u8> = vec![
            0x00, 0x01, 0x02, 0x04, 0x00, 0x00, 0x20, 0x54, 0x54, 0x54, 0x78, 0x00, 0x7f, 0x48, 0x44, 0x44,
            0x38, 0x00, 0x38, 0x44, 0x44, 0x44, 0x20, 0x00, 0x38, 0x44, 0x44, 0x48, 0x7f, 0x00, 0x38, 0x54,
            0x54, 0x54, 0x18, 0x00, 0x08, 0x7e, 0x09, 0x01, 0x02, 0x00, 0x0c, 0x52, 0x52, 0x52, 0x3e, 0x00,
            0x7f, 0x08, 0x04, 0x04, 0x78, 0x00, 0x00, 0x44, 0x7d, 0x40, 0x00, 0x00, 0x20, 0x40, 0x44, 0x3d,
            0x00, 0x00, 0x7f, 0x10, 0x28, 0x44, 0x00, 0x00, 0x00, 0x41, 0x7f, 0x40, 0x00, 0x00, 0x7c, 0x04,
            0x18, 0x04, 0x78, 0x00, 0x7c, 0x08, 0x04, 0x04, 0x78, 0x00, 0x38, 0x44, 0x44, 0x44, 0x38, 0x00,
            0x7c, 0x14, 0x14, 0x14, 0x08, 0x00, 0x08, 0x14, 0x14, 0x18, 0x7c, 0x00, 0x7c, 0x08, 0x04, 0x04,
            0x08, 0x00, 0x48, 0x54, 0x54, 0x54, 0x20, 0x00, 0x04, 0x3f, 0x44, 0x40, 0x20, 0x00, 0x3c, 0x40,
            0x40, 0x20, 0x7c, 0x00, 0x1c, 0x20, 0x40, 0x20, 0x1c, 0x00, 0x3c, 0x40, 0x30, 0x40, 0x3c, 0x00,
            0x44, 0x28, 0x10, 0x28, 0x44, 0x00, 0x0c, 0x50, 0x50, 0x50, 0x3c, 0x00, 0x44, 0x64, 0x54, 0x4c,
            0x44, 0x00, 0x00, 0x08, 0x36, 0x41, 0x00, 0x00, 0x00, 0x00, 0x7f, 0x00, 0x00, 0x00, 0x00, 0x41,
            0x36, 0x08, 0x00, 0x00, 0x02, 0x01, 0x02, 0x04, 0x02, 0x00,
        ];
        ascii.append(&mut ascii_part1);
        let ext_chars: Vec<char> = vec!['\u{b0}'];
        let ext: Vec<u8> = vec![
            0x00, 0x06, 0x09, 0x09, 0x06, 0x00,
        ];
        Font { height: 8, width: 6, ascii, ext_width: 6, ext_chars, ext }
    }

    /// The 16-pixel-high font: 8-pixel-wide ASCII cells, two byte rows.
    pub fn font16() -> (r: Font)
        ensures
            r.wf(),
            r.height == 16,
            r.width == 8,
            r.ext_width == 8,
            r.ext_chars@ == seq!['\u{b0}'],
    {
        let mut ascii: Vec<u8> = vec![
            0x00, 0x00, 0x00, 0x00, 0x00, 0x00, 0x00, 0x00, 0x00, 0x00, 0x00, 0x00, 0x00, 0x00, 0x00, 0x00,
            0x00, 0x00, 0xff, 0x00, 0x00, 0x00, 0x00, 0x00, 0x00, 0x00, 0x33, 0x00, 0x00, 0x00, 0x00, 0x00,
            0x00, 0x3f, 0x00, 0x3f, 0x00, 0x00, 0x00, 0x00, 0x00, 0x00, 0x00, 0x00, 0x00, 0x00, 0x00, 0x00,
            0x30, 0xff, 0x30, 0xff, 0x30, 0x00, 0x00, 0x00, 0x03, 0x3f, 0x03, 0x3f, 0x03, 0x00, 0x00, 0x00,
            0x30, 0xcc, 0xff, 0xcc, 0x0c, 0x00, 0x00, 0x00, 0x0c, 0x0c, 0x3f, 0x0c, 0x03, 0x00, 0x00, 0x00,
            0x0f, 0x0f, 0xc0, 0x30, 0x0c, 0x00, 0x00, 0x00, 0x0c, 0x03, 0x00, 0x3c, 0x3c, 0x00, 0x00, 0x00,
            0x3c, 0xc3, 0x33, 0x0c, 0x00, 0x00, 0x00, 0x00, 0x0f, 0x30, 0x33, 0x0c, 0x33, 0x00, 0x00, 0x00,
            0x00, 0x33, 0x0f, 0x00, 0x00, 0x00, 0x00, 0x00, 0x00, 0x00, 0x00, 0x00, 0x00, 0x00, 0x00, 0x00,
            0x00, 0xf0, 0x0c, 0x03, 0x00, 0x00, 0x00, 0x00, 0x00, 0x03, 0x0c, 0x30, 0x00, 0x00, 0x00, 0x00,
            0x00, 0x03, 0x0c, 0xf0, 0x00, 0x00, 0x00, 0x00, 0x00, 0x30, 0x0c, 0x03, 0x00, 0x00, 0x00, 0x00,
            0x30, 0xc0, 0xfc, 0xc0, 0x30, 0x00, 0x00, 0x00, 0x03, 0x00, 0x0f, 0x00, 0x03, 0x00, 0x00, 0x00,
            0xc0, 0xc0, 0xfc, 0xc0, 0xc0, 0x00, 0x00, 0x00, 0x00, 0x00, 0x0f, 0x00, 0x00, 0x00, 0x00, 0x00,
            0x00, 0x00, 0x00, 0x00, 0x00, 0x00, 0x00, 0x00, 0x00, 0x33, 0x0f, 0x00, 0x00, 0x00, 0x00, 0x00,
            0xc0, 0xc0, 0xc0, 0xc0, 0xc0, 0x00, 0x00, 0x00, 0x00, 0x00, 0x00, 0x00, 0x00, 0x00, 0x00, 0x00,
            0x00, 0x00, 0x00, 0x00, 0x00, 0x00, 0x00, 0x00, 0x00, 0x3c, 0x3c, 0x00, 0x00, 0x00, 0x00, 0x00,
            0x00, 0x00, 0xc0, 0x30, 0x0c, 0x00, 0x00, 0x00, 0x0c, 0x03, 0x00, 0x00, 0x00, 0x00, 0x00, 0x00,
            0xfc, 0x03, 0xc3, 0x33, 0xfc, 0x00, 0x00, 0x00, 0x0f, 0x33, 0x30, 0x30, 0x0f, 0x00, 0x00, 0x00,
            0x00, 0x0c, 0xff, 0x00, 0x00, 0x00, 0x00, 0x00, 0x00, 0x30, 0x3f, 0x30, 0x00, 0x00, 0x00, 0x00,
            0x0c, 0x03, 0x03, 0xc3, 0x3c, 0x00, 0x00, 0x00, 0x30, 0x3c, 0x33, 0x30, 0x30, 0x00, 0x00, 0x00,
            0x03, 0x03, 0x33, 0xcf, 0x03, 0x00, 0x00, 0x00, 0x0c, 0x30, 0x30, 0x30, 0x0f, 0x00, 0x00, 0x00,
            0xc0, 0x30, 0x0c, 0xff, 0x00, 0x00, 0x00, 0x00, 0x03, 0x03, 0x03, 0x3f, 0x03, 0x00, 0x00, 0x00,
            0x3f, 0x33, 0x33, 0x33, 0xc3, 0x00, 0x00, 0x00, 0x0c, 0x30, 0x30, 0x30, 0x0f, 0x00, 0x00, 0x00,
            0xf0, 0xcc, 0xc3, 0xc3, 0x00, 0x00, 0x00, 0x00, 0x0f, 0x30, 0x30, 0x30, 0x0f, 0x00, 0x00, 0x00,
            0x03, 0x03, 0xc3, 0x33, 0x0f, 0x00, 0x00, 0x00, 0x00, 0x3f, 0x00, 0x00, 0x00, 0x00, 0x00, 0x00,
        ];
        let mut ascii_part1: Vec<u8> = vec![
            0x3c, 0xc3, 0xc3, 0xc3, 0x3c, 0x00, 0x00, 0x00, 0x0f, 0x30, 0x30, 0x30, 0x0f, 0x00, 0x00, 0x00,
            0x3c, 0xc3, 0xc3, 0xc3, 0xfc, 0x00, 0x00, 0x00, 0x00, 0x30, 0x30, 0x0c, 0x03, 0x00, 0x00, 0x00,
            0x00, 0x3c, 0x3c, 0x00, 0x00, 0x00, 0x00, 0x00, 0x00, 0x0f, 0x0f, 0x00, 0x00, 0x00, 0x00, 0x00,
            0x00, 0x3c, 0x3c, 0x00, 0x00, 0x00, 0x00, 0x00, 0x00, 0x33, 0x0f, 0x00, 0x00, 0x00, 0x00, 0x00,
            0xc0, 0x30, 0x0c, 0x03, 0x00, 0x00, 0x00, 0x00, 0x00, 0x03, 0x0c, 0x30, 0x00, 0x00, 0x00, 0x00,
            0x30, 0x30, 0x30, 0x30, 0x30, 0x00, 0x00, 0x00, 0x03, 0x03, 0x03, 0x03, 0x03, 0x00, 0x00, 0x00,
            0x00, 0x03, 0x0c, 0x30, 0xc0, 0x00, 0x00, 0x00, 0x00, 0x30, 0x0c, 0x03, 0x00, 0x00, 0x00, 0x00,
            0x0c, 0x03, 0x03, 0xc3, 0x3c, 0x00, 0x00, 0x00, 0x00, 0x00, 0x33, 0x00, 0x00, 0x00, 0x00, 0x00,
            0x0c, 0xc3, 0xc3, 0x03, 0xfc, 0x00, 0x00, 0x00, 0x0f, 0x30, 0x3f, 0x30, 0x0f, 0x00, 0x00, 0x00,
            0xfc, 0x03, 0x03, 0x03, 0xfc, 0x00, 0x00, 0x00, 0x3f, 0x03, 0x03, 0x03, 0x3f, 0x00, 0x00, 0x00,
            0xff, 0xc3, 0xc3, 0xc3, 0x3c, 0x00, 0x00, 0x00, 0x3f, 0x30, 0x30, 0x30, 0x0f, 0x00, 0x00, 0x00,
            0xfc, 0x03, 0x03, 0x03, 0x0c, 0x00, 0x00, 0x00, 0x0f, 0x30, 0x30, 0x30, 0x0c, 0x00, 0x00, 0x00,
            0xff, 0x03, 0x03, 0x0c, 0xf0, 0x00, 0x00, 0x00, 0x3f, 0x30, 0x30, 0x0c, 0x03, 0x00, 0x00, 0x00,
            0xff, 0xc3, 0xc3, 0xc3, 0x03, 0x00, 0x00, 0x00, 0x3f, 0x30, 0x30, 0x30, 0x30, 0x00, 0x00, 0x00,
            0xff, 0xc3, 0xc3, 0xc3, 0x03, 0x00, 0x00, 0x00, 0x3f, 0x00, 0x00, 0x00, 0x00, 0x00, 0x00, 0x00,
            0xfc, 0x03, 0xc3, 0xc3, 0xcc, 0x00, 0x00, 0x00, 0x0f, 0x30, 0x30, 0x30, 0x3f, 0x00, 0x00, 0x00,
            0xff, 0xc0, 0xc0, 0xc0, 0xff, 0x00, 0x00, 0x00, 0x3f, 0x00, 0x00, 0x00, 0x3f, 0x00, 0x00, 0x00,
            0x00, 0x03, 0xff, 0x03, 0x00, 0x00, 0x00, 0x00, 0x00, 0x30, 0x3f, 0x30, 0x00, 0x00, 0x00, 0x00,
            0x00, 0x00, 0x03, 0xff, 0x03, 0x00, 0x00, 0x00, 0x0c, 0x30, 0x30, 0x0f, 0x00, 0x00, 0x00, 0x00,
            0xff, 0xc0, 0x30, 0x0c, 0x03, 0x00, 0x00, 0x00, 0x3f, 0x00, 0x03, 0x0c, 0x30, 0x00, 0x00, 0x00,
            0xff, 0x00, 0x00, 0x00, 0x00, 0x00, 0x00, 0x00, 0x3f, 0x30, 0x30, 0x30, 0x30, 0x00, 0x00, 0x00,
            0xff, 0x0c, 0xf0, 0x0c, 0xff, 0x00, 0x00, 0x00, 0x3f, 0x00, 0x00, 0x00, 0x3f, 0x00, 0x00, 0x00,
            0xff, 0x30, 0xc0, 0x00, 0xff, 0x00, 0x00, 0x00, 0x3f, 0x00, 0x00, 0x03, 0x3f, 0x00, 0x00, 0x00,
            0xfc, 0x03, 0x03, 0x03, 0xfc, 0x00, 0x00, 0x00, 0x0f, 0x30, 0x30, 0x30, 0x0f, 0x00, 0x00, 0x00,
        ];
        ascii.append(&mut ascii_part1);
        let mut ascii_part2: Vec<u8> = vec![
            0xff, 0xc3, 0xc3, 0xc3, 0x3c, 0x00, 0x00, 0x00, 0x3f, 0x00, 0x00, 0x00, 0x00, 0x00, 0x00, 0x00,
            0xfc, 0x03, 0x03, 0x03, 0xfc, 0x00, 0x00, 0x00, 0x0f, 0x30, 0x33, 0x0c, 0x33, 0x00, 0x00, 0x00,
            0xff, 0xc3, 0xc3, 0xc3, 0x3c, 0x00, 0x00, 0x00, 0x3f, 0x00, 0x03, 0x0c, 0x30, 0x00, 0x00, 0x00,
            0x3c, 0xc3, 0xc3, 0xc3, 0x03, 0x00, 0x00, 0x00, 0x30, 0x30, 0x30, 0x30, 0x0f, 0x00, 0x00, 0x00,
            0x03, 0x03, 0xff, 0x03, 0x03, 0x00, 0x00, 0x00, 0x00, 0x00, 0x3f, 0x00, 0x00, 0x00, 0x00, 0x00,
            0xff, 0x00, 0x00, 0x00, 0xff, 0x00, 0x00, 0x00, 0x0f, 0x30, 0x30, 0x30, 0x0f, 0x00, 0x00, 0x00,
            0xff, 0x00, 0x00, 0x00, 0xff, 0x00, 0x00, 0x00, 0x03, 0x0c, 0x30, 0x0c, 0x03, 0x00, 0x00, 0x00,
            0xff, 0x00, 0xc0, 0x00, 0xff, 0x00, 0x00, 0x00, 0x0f, 0x30, 0x0f, 0x30, 0x0f, 0x00, 0x00, 0x00,
            0x0f, 0x30, 0xc0, 0x30, 0x0f, 0x00, 0x00, 0x00, 0x3c, 0x03, 0x00, 0x03, 0x3c, 0x00, 0x00, 0x00,
            0x3f, 0xc0, 0x00, 0xc0, 0x3f, 0x00, 0x00, 0x00, 0x00, 0x00, 0x3f, 0x00, 0x00, 0x00, 0x00, 0x00,
            0x03, 0x03, 0xc3, 0x33, 0x0f, 0x00, 0x00, 0x00, 0x3c, 0x33, 0x30, 0x30, 0x30, 0x00, 0x00, 0x00,
            0x00, 0xff, 0x03, 0x03, 0x00, 0x00, 0x00, 0x00, 0x00, 0x3f, 0x30, 0x30, 0x00, 0x00, 0x00, 0x00,
            0x0c, 0x30, 0xc0, 0x00, 0x00, 0x00, 0x00, 0x00, 0x00, 0x00, 0x00, 0x03, 0x0c, 0x00, 0x00, 0x00,
            0x00, 0x03, 0x03, 0xff, 0x00, 0x00, 0x00, 0x00, 0x00, 0x30, 0x30, 0x3f, 0x00, 0x00, 0x00, 0x00,
            0x30, 0x0c, 0x03, 0x0c, 0x30, 0x00, 0x00, 0x00, 0x00, 0x00, 0x00, 0x00, 0x00, 0x00, 0x00, 0x00,
            0x00, 0x00, 0x00, 0x00, 0x00, 0x00, 0x00, 0x00, 0x30, 0x30, 0x30, 0x30, 0x30, 0x00, 0x00, 0x00,
            0x00, 0x03, 0x0c, 0x30, 0x00, 0x00, 0x00, 0x00, 0x00, 0x00, 0x00, 0x00, 0x00, 0x00, 0x00, 0x00,
            0x00, 0x30, 0x30, 0x30, 0xc0, 0x00, 0x00, 0x00, 0x0c, 0x33, 0x33, 0x33, 0x3f, 0x00, 0x00, 0x00,
            0xff, 0xc0, 0x30, 0x30, 0xc0, 0x00, 0x00, 0x00, 0x3f, 0x30, 0x30, 0x30, 0x0f, 0x00, 0x00, 0x00,
            0xc0, 0x30, 0x30, 0x30, 0x00, 0x00, 0x00, 0x00, 0x0f, 0x30, 0x30, 0x30, 0x0c, 0x00, 0x00, 0x00,
            0xc0, 0x30, 0x30, 0xc0, 0xff, 0x00, 0x00, 0x00, 0x0f, 0x30, 0x30, 0x30, 0x3f, 0x00, 0x00, 0x00,
            0xc0, 0x30, 0x30, 0x30, 0xc0, 0x00, 0x00, 0x00, 0x0f, 0x33, 0x33, 0x33, 0x03, 0x00, 0x00, 0x00,
            0xc0, 0xfc, 0xc3, 0x03, 0x0c, 0x00, 0x00, 0x00, 0x00, 0x3f, 0x00, 0x00, 0x00, 0x00, 0x00, 0x00,
            0xf0, 0x0c, 0x0c, 0x0c, 0xfc, 0x00, 0x00, 0x00, 0x00, 0x33, 0x33, 0x33, 0x0f, 0x00, 0x00, 0x00,
        ];
        ascii.append(&mut ascii_part2);
        let mut ascii_part3: Vec<u8> = vec![
            0xff, 0xc0, 0x30, 0x30, 0xc0, 0x00, 0x00, 0x00, 0x3f, 0x00, 0x00, 0x00, 0x3f, 0x00, 0x00, 0x00,
            0x00, 0x30, 0xf3, 0x00, 0x00, 0x00, 0x00, 0x00, 0x00, 0x30, 0x3f, 0x30, 0x00, 0x00, 0x00, 0x00,
            0x00, 0x00, 0x30, 0xf3, 0x00, 0x00, 0x00, 0x00, 0x0c, 0x30, 0x30, 0x0f, 0x00, 0x00, 0x00, 0x00,
            0xff, 0x00, 0xc0, 0x30, 0x00, 0x00, 0x00, 0x00, 0x3f, 0x03, 0x0c, 0x30, 0x00, 0x00, 0x00, 0x00,
            0x00, 0x03, 0xff, 0x00, 0x00, 0x00, 0x00, 0x00, 0x00, 0x30, 0x3f, 0x30, 0x00, 0x00, 0x00, 0x00,
            0xf0, 0x30, 0xc0, 0x30, 0xc0, 0x00, 0x00, 0x00, 0x3f, 0x00, 0x03, 0x00, 0x3f, 0x00, 0x00, 0x00,
            0xf0, 0xc0, 0x30, 0x30, 0xc0, 0x00, 0x00, 0x00, 0x3f, 0x00, 0x00, 0x00, 0x3f, 0x00, 0x00, 0x00,
            0xc0, 0x30, 0x30, 0x30, 0xc0, 0x00, 0x00, 0x00, 0x0f, 0x30, 0x30, 0x30, 0x0f, 0x00, 0x00, 0x00,
            0xf0, 0x30, 0x30, 0x30, 0xc0, 0x00, 0x00, 0x00, 0x3f, 0x03, 0x03, 0x03, 0x00, 0x00, 0x00, 0x00,
            0xc0, 0x30, 0x30, 0xc0, 0xf0, 0x00, 0x00, 0x00, 0x00, 0x03, 0x03, 0x03, 0x3f, 0x00, 0x00, 0x00,
            0xf0, 0xc0, 0x30, 0x30, 0xc0, 0x00, 0x00, 0x00, 0x3f, 0x00, 0x00, 0x00, 0x00, 0x00, 0x00, 0x00,
            0xc0, 0x30, 0x30, 0x30, 0x00, 0x00, 0x00, 0x00, 0x30, 0x33, 0x33, 0x33, 0x0c, 0x00, 0x00, 0x00,
            0x30, 0xff, 0x30, 0x00, 0x00, 0x00, 0x00, 0x00, 0x00, 0x0f, 0x30, 0x30, 0x0c, 0x00, 0x00, 0x00,
            0xf0, 0x00, 0x00, 0x00, 0xf0, 0x00, 0x00, 0x00, 0x0f, 0x30, 0x30, 0x0c, 0x3f, 0x00, 0x00, 0x00,
            0xf0, 0x00, 0x00, 0x00, 0xf0, 0x00, 0x00, 0x00, 0x03, 0x0c, 0x30, 0x0c, 0x03, 0x00, 0x00, 0x00,
            0xf0, 0x00, 0x00, 0x00, 0xf0, 0x00, 0x00, 0x00, 0x0f, 0x30, 0x0f, 0x30, 0x0f, 0x00, 0x00, 0x00,
            0x30, 0xc0, 0x00, 0xc0, 0x30, 0x00, 0x00, 0x00, 0x30, 0x0c, 0x03, 0x0c, 0x30, 0x00, 0x00, 0x00,
            0xf0, 0x00, 0x00, 0x00, 0xf0, 0x00, 0x00, 0x00, 0x00, 0x33, 0x33, 0x33, 0x0f, 0x00, 0x00, 0x00,
            0x30, 0x30, 0x30, 0xf0, 0x30, 0x00, 0x00, 0x00, 0x30, 0x3c, 0x33, 0x30, 0x30, 0x00, 0x00, 0x00,
            0x00, 0xc0, 0x3c, 0x03, 0x00, 0x00, 0x00, 0x00, 0x00, 0x00, 0x0f, 0x30, 0x00, 0x00, 0x00, 0x00,
            0x00, 0x00, 0xff, 0x00, 0x00, 0x00, 0x00, 0x00, 0x00, 0x00, 0x3f, 0x00, 0x00, 0x00, 0x00, 0x00,
            0x00, 0x03, 0x3c, 0xc0, 0x00, 0x00, 0x00, 0x00, 0x00, 0x30, 0x0f, 0x00, 0x00, 0x00, 0x00, 0x00,
            0x0c, 0x03, 0x0c, 0x30, 0x0c, 0x00, 0x00, 0x00, 0x00, 0x00, 0x00, 0x00, 0x00, 0x00, 0x00, 0x00,
        ];
        ascii.append(&mut ascii_part3);
        let ext_chars: Vec<char> = vec!['\u{b0}'];
        let ext: Vec<u8> = vec![
            0x00, 0x3c, 0xc3, 0xc3, 0x3c, 0x00, 0x00, 0x00, 0x00, 0x00, 0x00, 0x00, 0x00, 0x00, 0x00, 0x00,
        ];
        Font { height: 16, width: 8, ascii, ext_width: 8, ext_chars, ext }
    }

    /// The 24-pixel-high font: 12-pixel-wide ASCII cells, three byte rows.
    pub fn font24() -> (r: Font)
        ensures
            r.wf(),
            r.height == 24,
            r.width == 12,
            r.ext_width == 12,
            r.ext_chars@ == seq!['\u{b0}'],
    {
        let mut ascii: Vec<u8> = vec![
            0x00, 0x00, 0x00, 0x00, 0x00, 0x00, 0x00, 0x00, 0x00, 0x00, 0x00, 0x00, 0x00, 0x00, 0x00, 0x00,
            0x00, 0x00, 0x00, 0x00, 0x00, 0x00, 0x00, 0x00, 0x00, 0x00, 0x00, 0x00, 0x00, 0x00, 0x00, 0x00,
            0x00, 0x00, 0x00, 0x00, 0x00, 0x00, 0x00, 0x00, 0xff, 0xff, 0x00, 0x00, 0x00, 0x00, 0x00, 0x00,
            0x00, 0x00, 0x00, 0x00, 0x7f, 0x7f, 0x00, 0x00, 0x00, 0x00, 0x00, 0x00, 0x00, 0x00, 0x00, 0x00,
            0x1c, 0x1c, 0x00, 0x00, 0x00, 0x00, 0x00, 0x00, 0x00, 0x00, 0xff, 0xff, 0x00, 0x00, 0xff, 0xff,
            0x00, 0x00, 0x00, 0x00, 0x00, 0x00, 0x01, 0x01, 0x00, 0x00, 0x01, 0x01, 0x00, 0x00, 0x00, 0x00,
            0x00, 0x00, 0x00, 0x00, 0x00, 0x00, 0x00, 0x00, 0x00, 0x00, 0x00, 0x00, 0xc0, 0xc0, 0xff, 0xff,
            0xc0, 0xc0, 0xff, 0xff, 0xc0, 0xc0, 0x00, 0x00, 0x71, 0x71, 0xff, 0xff, 0x71, 0x71, 0xff, 0xff,
            0x71, 0x71, 0x00, 0x00, 0x00, 0x00, 0x1f, 0x1f, 0x00, 0x00, 0x1f, 0x1f, 0x00, 0x00, 0x00, 0x00,
            0xc0, 0xc0, 0x38, 0x38, 0xff, 0xff, 0x38, 0x38, 0x38, 0x38, 0x00, 0x00, 0x81, 0x81, 0x8e, 0x8e,
            0xff, 0xff, 0x8e, 0x8e, 0x70, 0x70, 0x00, 0x00, 0x03, 0x03, 0x03, 0x03, 0x1f, 0x1f, 0x03, 0x03,
            0x00, 0x00, 0x00, 0x00, 0x3f, 0x3f, 0x3f, 0x3f, 0x00, 0x00, 0xc0, 0xc0, 0x38, 0x38, 0x00, 0x00,
            0x80, 0x80, 0x70, 0x70, 0x0e, 0x0e, 0x81, 0x81, 0x80, 0x80, 0x00, 0x00, 0x03, 0x03, 0x00, 0x00,
            0x00, 0x00, 0x1f, 0x1f, 0x1f, 0x1f, 0x00, 0x00, 0xf8, 0xf8, 0x07, 0x07, 0xc7, 0xc7, 0x38, 0x38,
            0x00, 0x00, 0x00, 0x00, 0xf1, 0xf1, 0x0e, 0x0e, 0x71, 0x71, 0x80, 0x80, 0x70, 0x70, 0x00, 0x00,
            0x03, 0x03, 0x1c, 0x1c, 0x1c, 0x1c, 0x03, 0x03, 0x1c, 0x1c, 0x00, 0x00, 0x00, 0x00, 0xc7, 0xc7,
            0x3f, 0x3f, 0x00, 0x00, 0x00, 0x00, 0x00, 0x00, 0x00, 0x00, 0x01, 0x01, 0x00, 0x00, 0x00, 0x00,
            0x00, 0x00, 0x00, 0x00, 0x00, 0x00, 0x00, 0x00, 0x00, 0x00, 0x00, 0x00, 0x00, 0x00, 0x00, 0x00,
            0x00, 0x00, 0xc0, 0xc0, 0x38, 0x38, 0x07, 0x07, 0x00, 0x00, 0x00, 0x00, 0x00, 0x00, 0x7f, 0x7f,
            0x80, 0x80, 0x00, 0x00, 0x00, 0x00, 0x00, 0x00, 0x00, 0x00, 0x00, 0x00, 0x03, 0x03, 0x1c, 0x1c,
            0x00, 0x00, 0x00, 0x00, 0x00, 0x00, 0x07, 0x07, 0x38, 0x38, 0xc0, 0xc0, 0x00, 0x00, 0x00, 0x00,
            0x00, 0x00, 0x00, 0x00, 0x80, 0x80, 0x7f, 0x7f, 0x00, 0x00, 0x00, 0x00, 0x00, 0x00, 0x1c, 0x1c,
            0x03, 0x03, 0x00, 0x00, 0x00, 0x00, 0x00, 0x00, 0xc0, 0xc0, 0x00, 0x00, 0xf8, 0xf8, 0x00, 0x00,
            0xc0, 0xc0, 0x00, 0x00, 0x71, 0x71, 0x0e, 0x0e, 0xff, 0xff, 0x0e, 0x0e, 0x71, 0x71, 0x00, 0x00,
        ];
        let mut ascii_part1: Vec<u8> = vec![
            0x00, 0x00, 0x00, 0x00, 0x03, 0x03, 0x00, 0x00, 0x00, 0x00, 0x00, 0x00, 0x00, 0x00, 0x00, 0x00,
            0xf8, 0xf8, 0x00, 0x00, 0x00, 0x00, 0x00, 0x00, 0x0e, 0x0e, 0x0e, 0x0e, 0xff, 0xff, 0x0e, 0x0e,
            0x0e, 0x0e, 0x00, 0x00, 0x00, 0x00, 0x00, 0x00, 0x03, 0x03, 0x00, 0x00, 0x00, 0x00, 0x00, 0x00,
            0x00, 0x00, 0x00, 0x00, 0x00, 0x00, 0x00, 0x00, 0x00, 0x00, 0x00, 0x00, 0x00, 0x00, 0x70, 0x70,
            0xf0, 0xf0, 0x00, 0x00, 0x00, 0x00, 0x00, 0x00, 0x00, 0x00, 0x1c, 0x1c, 0x03, 0x03, 0x00, 0x00,
            0x00, 0x00, 0x00, 0x00, 0x00, 0x00, 0x00, 0x00, 0x00, 0x00, 0x00, 0x00, 0x00, 0x00, 0x00, 0x00,
            0x0e, 0x0e, 0x0e, 0x0e, 0x0e, 0x0e, 0x0e, 0x0e, 0x0e, 0x0e, 0x00, 0x00, 0x00, 0x00, 0x00, 0x00,
            0x00, 0x00, 0x00, 0x00, 0x00, 0x00, 0x00, 0x00, 0x00, 0x00, 0x00, 0x00, 0x00, 0x00, 0x00, 0x00,
            0x00, 0x00, 0x00, 0x00, 0x00, 0x00, 0x80, 0x80, 0x80, 0x80, 0x00, 0x00, 0x00, 0x00, 0x00, 0x00,
            0x00, 0x00, 0x1f, 0x1f, 0x1f, 0x1f, 0x00, 0x00, 0x00, 0x00, 0x00, 0x00, 0x00, 0x00, 0x00, 0x00,
            0x00, 0x00, 0xc0, 0xc0, 0x38, 0x38, 0x00, 0x00, 0x80, 0x80, 0x70, 0x70, 0x0e, 0x0e, 0x01, 0x01,
            0x00, 0x00, 0x00, 0x00, 0x03, 0x03, 0x00, 0x00, 0x00, 0x00, 0x00, 0x00, 0x00, 0x00, 0x00, 0x00,
            0xf8, 0xf8, 0x07, 0x07, 0x07, 0x07, 0xc7, 0xc7, 0xf8, 0xf8, 0x00, 0x00, 0xff, 0xff, 0x70, 0x70,
            0x0e, 0x0e, 0x01, 0x01, 0xff, 0xff, 0x00, 0x00, 0x03, 0x03, 0x1c, 0x1c, 0x1c, 0x1c, 0x1c, 0x1c,
            0x03, 0x03, 0x00, 0x00, 0x00, 0x00, 0x38, 0x38, 0xff, 0xff, 0x00, 0x00, 0x00, 0x00, 0x00, 0x00,
            0x00, 0x00, 0x00, 0x00, 0xff, 0xff, 0x00, 0x00, 0x00, 0x00, 0x00, 0x00, 0x00, 0x00, 0x1c, 0x1c,
            0x1f, 0x1f, 0x1c, 0x1c, 0x00, 0x00, 0x00, 0x00, 0x38, 0x38, 0x07, 0x07, 0x07, 0x07, 0x07, 0x07,
            0xf8, 0xf8, 0x00, 0x00, 0x00, 0x00, 0x80, 0x80, 0x70, 0x70, 0x0e, 0x0e, 0x01, 0x01, 0x00, 0x00,
            0x1c, 0x1c, 0x1f, 0x1f, 0x1c, 0x1c, 0x1c, 0x1c, 0x1c, 0x1c, 0x00, 0x00, 0x07, 0x07, 0x07, 0x07,
            0xc7, 0xc7, 0x3f, 0x3f, 0x07, 0x07, 0x00, 0x00, 0x80, 0x80, 0x00, 0x00, 0x01, 0x01, 0x0e, 0x0e,
            0xf0, 0xf0, 0x00, 0x00, 0x03, 0x03, 0x1c, 0x1c, 0x1c, 0x1c, 0x1c, 0x1c, 0x03, 0x03, 0x00, 0x00,
            0x00, 0x00, 0xc0, 0xc0, 0x38, 0x38, 0xff, 0xff, 0x00, 0x00, 0x00, 0x00, 0x7e, 0x7e, 0x71, 0x71,
            0x70, 0x70, 0xff, 0xff, 0x70, 0x70, 0x00, 0x00, 0x00, 0x00, 0x00, 0x00, 0x00, 0x00, 0x1f, 0x1f,
            0x00, 0x00, 0x00, 0x00, 0xff, 0xff, 0xc7, 0xc7, 0xc7, 0xc7, 0xc7, 0xc7, 0x07, 0x07, 0x00, 0x00,
        ];
        ascii.append(&mut ascii_part1);
        let mut ascii_part2: Vec<u8> = vec![
            0x81, 0x81, 0x01, 0x01, 0x01, 0x01, 0x01, 0x01, 0xfe, 0xfe, 0x00, 0x00, 0x03, 0x03, 0x1c, 0x1c,
            0x1c, 0x1c, 0x1c, 0x1c, 0x03, 0x03, 0x00, 0x00, 0xc0, 0xc0, 0x38, 0x38, 0x07, 0x07, 0x07, 0x07,
            0x00, 0x00, 0x00, 0x00, 0xff, 0xff, 0x0e, 0x0e, 0x0e, 0x0e, 0x0e, 0x0e, 0xf0, 0xf0, 0x00, 0x00,
            0x03, 0x03, 0x1c, 0x1c, 0x1c, 0x1c, 0x1c, 0x1c, 0x03, 0x03, 0x00, 0x00, 0x07, 0x07, 0x07, 0x07,
            0x07, 0x07, 0xc7, 0xc7, 0x3f, 0x3f, 0x00, 0x00, 0x00, 0x00, 0xf0, 0xf0, 0x0e, 0x0e, 0x01, 0x01,
            0x00, 0x00, 0x00, 0x00, 0x00, 0x00, 0x1f, 0x1f, 0x00, 0x00, 0x00, 0x00, 0x00, 0x00, 0x00, 0x00,
            0xf8, 0xf8, 0x07, 0x07, 0x07, 0x07, 0x07, 0x07, 0xf8, 0xf8, 0x00, 0x00, 0xf1, 0xf1, 0x0e, 0x0e,
            0x0e, 0x0e, 0x0e, 0x0e, 0xf1, 0xf1, 0x00, 0x00, 0x03, 0x03, 0x1c, 0x1c, 0x1c, 0x1c, 0x1c, 0x1c,
            0x03, 0x03, 0x00, 0x00, 0xf8, 0xf8, 0x07, 0x07, 0x07, 0x07, 0x07, 0x07, 0xf8, 0xf8, 0x00, 0x00,
            0x01, 0x01, 0x0e, 0x0e, 0x0e, 0x0e, 0x8e, 0x8e, 0x7f, 0x7f, 0x00, 0x00, 0x00, 0x00, 0x1c, 0x1c,
            0x1c, 0x1c, 0x03, 0x03, 0x00, 0x00, 0x00, 0x00, 0x00, 0x00, 0xf8, 0xf8, 0xf8, 0xf8, 0x00, 0x00,
            0x00, 0x00, 0x00, 0x00, 0x00, 0x00, 0xf1, 0xf1, 0xf1, 0xf1, 0x00, 0x00, 0x00, 0x00, 0x00, 0x00,
            0x00, 0x00, 0x03, 0x03, 0x03, 0x03, 0x00, 0x00, 0x00, 0x00, 0x00, 0x00, 0x00, 0x00, 0xf8, 0xf8,
            0xf8, 0xf8, 0x00, 0x00, 0x00, 0x00, 0x00, 0x00, 0x00, 0x00, 0x71, 0x71, 0xf1, 0xf1, 0x00, 0x00,
            0x00, 0x00, 0x00, 0x00, 0x00, 0x00, 0x1c, 0x1c, 0x03, 0x03, 0x00, 0x00, 0x00, 0x00, 0x00, 0x00,
            0x00, 0x00, 0xc0, 0xc0, 0x38, 0x38, 0x07, 0x07, 0x00, 0x00, 0x00, 0x00, 0x0e, 0x0e, 0x71, 0x71,
            0x80, 0x80, 0x00, 0x00, 0x00, 0x00, 0x00, 0x00, 0x00, 0x00, 0x00, 0x00, 0x03, 0x03, 0x1c, 0x1c,
            0x00, 0x00, 0x00, 0x00, 0xc0, 0xc0, 0xc0, 0xc0, 0xc0, 0xc0, 0xc0, 0xc0, 0xc0, 0xc0, 0x00, 0x00,
            0x71, 0x71, 0x71, 0x71, 0x71, 0x71, 0x71, 0x71, 0x71, 0x71, 0x00, 0x00, 0x00, 0x00, 0x00, 0x00,
            0x00, 0x00, 0x00, 0x00, 0x00, 0x00, 0x00, 0x00, 0x00, 0x00, 0x07, 0x07, 0x38, 0x38, 0xc0, 0xc0,
            0x00, 0x00, 0x00, 0x00, 0x00, 0x00, 0x00, 0x00, 0x80, 0x80, 0x71, 0x71, 0x0e, 0x0e, 0x00, 0x00,
            0x00, 0x00, 0x1c, 0x1c, 0x03, 0x03, 0x00, 0x00, 0x00, 0x00, 0x00, 0x00, 0x38, 0x38, 0x07, 0x07,
            0x07, 0x07, 0x07, 0x07, 0xf8, 0xf8, 0x00, 0x00, 0x00, 0x00, 0x00, 0x00, 0x70, 0x70, 0x0e, 0x0e,
            0x01, 0x01, 0x00, 0x00, 0x00, 0x00, 0x00, 0x00, 0x1c, 0x1c, 0x00, 0x00, 0x00, 0x00, 0x00, 0x00,
        ];
        ascii.append(&mut ascii_part2);
        let mut ascii_part3: Vec<u8> = vec![
            0x38, 0x38, 0x07, 0x07, 0x07, 0x07, 0x07, 0x07, 0xf8, 0xf8, 0x00, 0x00, 0xf0, 0xf0, 0x0e, 0x0e,
            0xfe, 0xfe, 0x00, 0x00, 0xff, 0xff, 0x00, 0x00, 0x03, 0x03, 0x1c, 0x1c, 0x1f, 0x1f, 0x1c, 0x1c,
            0x03, 0x03, 0x00, 0x00, 0xf8, 0xf8, 0x07, 0x07, 0x07, 0x07, 0x07, 0x07, 0xf8, 0xf8, 0x00, 0x00,
            0xff, 0xff, 0x70, 0x70, 0x70, 0x70, 0x70, 0x70, 0xff, 0xff, 0x00, 0x00, 0x1f, 0x1f, 0x00, 0x00,
            0x00, 0x00, 0x00, 0x00, 0x1f, 0x1f, 0x00, 0x00, 0xff, 0xff, 0x07, 0x07, 0x07, 0x07, 0x07, 0x07,
            0xf8, 0xf8, 0x00, 0x00, 0xff, 0xff, 0x0e, 0x0e, 0x0e, 0x0e, 0x0e, 0x0e, 0xf1, 0xf1, 0x00, 0x00,
            0x1f, 0x1f, 0x1c, 0x1c, 0x1c, 0x1c, 0x1c, 0x1c, 0x03, 0x03, 0x00, 0x00, 0xf8, 0xf8, 0x07, 0x07,
            0x07, 0x07, 0x07, 0x07, 0x38, 0x38, 0x00, 0x00, 0xff, 0xff, 0x00, 0x00, 0x00, 0x00, 0x00, 0x00,
            0x80, 0x80, 0x00, 0x00, 0x03, 0x03, 0x1c, 0x1c, 0x1c, 0x1c, 0x1c, 0x1c, 0x03, 0x03, 0x00, 0x00,
            0xff, 0xff, 0x07, 0x07, 0x07, 0x07, 0x38, 0x38, 0xc0, 0xc0, 0x00, 0x00, 0xff, 0xff, 0x00, 0x00,
            0x00, 0x00, 0x80, 0x80, 0x7f, 0x7f, 0x00, 0x00, 0x1f, 0x1f, 0x1c, 0x1c, 0x1c, 0x1c, 0x03, 0x03,
            0x00, 0x00, 0x00, 0x00, 0xff, 0xff, 0x07, 0x07, 0x07, 0x07, 0x07, 0x07, 0x07, 0x07, 0x00, 0x00,
            0xff, 0xff, 0x0e, 0x0e, 0x0e, 0x0e, 0x0e, 0x0e, 0x00, 0x00, 0x00, 0x00, 0x1f, 0x1f, 0x1c, 0x1c,
            0x1c, 0x1c, 0x1c, 0x1c, 0x1c, 0x1c, 0x00, 0x00, 0xff, 0xff, 0x07, 0x07, 0x07, 0x07, 0x07, 0x07,
            0x07, 0x07, 0x00, 0x00, 0xff, 0xff, 0x0e, 0x0e, 0x0e, 0x0e, 0x0e, 0x0e, 0x00, 0x00, 0x00, 0x00,
            0x1f, 0x1f, 0x00, 0x00, 0x00, 0x00, 0x00, 0x00, 0x00, 0x00, 0x00, 0x00, 0xf8, 0xf8, 0x07, 0x07,
            0x07, 0x07, 0x07, 0x07, 0x38, 0x38, 0x00, 0x00, 0xff, 0xff, 0x00, 0x00, 0x0e, 0x0e, 0x0e, 0x0e,
            0xfe, 0xfe, 0x00, 0x00, 0x03, 0x03, 0x1c, 0x1c, 0x1c, 0x1c, 0x1c, 0x1c, 0x1f, 0x1f, 0x00, 0x00,
            0xff, 0xff, 0x00, 0x00, 0x00, 0x00, 0x00, 0x00, 0xff, 0xff, 0x00, 0x00, 0xff, 0xff, 0x0e, 0x0e,
            0x0e, 0x0e, 0x0e, 0x0e, 0xff, 0xff, 0x00, 0x00, 0x1f, 0x1f, 0x00, 0x00, 0x00, 0x00, 0x00, 0x00,
            0x1f, 0x1f, 0x00, 0x00, 0x00, 0x00, 0x07, 0x07, 0xff, 0xff, 0x07, 0x07, 0x00, 0x00, 0x00, 0x00,
            0x00, 0x00, 0x00, 0x00, 0xff, 0xff, 0x00, 0x00, 0x00, 0x00, 0x00, 0x00, 0x00, 0x00, 0x1c, 0x1c,
            0x1f, 0x1f, 0x1c, 0x1c, 0x00, 0x00, 0x00, 0x00, 0x00, 0x00, 0x00, 0x00, 0x07, 0x07, 0xff, 0xff,
            0x07, 0x07, 0x00, 0x00, 0x80, 0x80, 0x00, 0x00, 0x00, 0x00, 0xff, 0xff, 0x00, 0x00, 0x00, 0x00,
        ];
        ascii.append(&mut ascii_part3);
        let mut ascii_part4: Vec<u8> = vec![
            0x03, 0x03, 0x1c, 0x1c, 0x1c, 0x1c, 0x03, 0x03, 0x00, 0x00, 0x00, 0x00, 0xff, 0xff, 0x00, 0x00,
            0xc0, 0xc0, 0x38, 0x38, 0x07, 0x07, 0x00, 0x00, 0xff, 0xff, 0x0e, 0x0e, 0x71, 0x71, 0x80, 0x80,
            0x00, 0x00, 0x00, 0x00, 0x1f, 0x1f, 0x00, 0x00, 0x00, 0x00, 0x03, 0x03, 0x1c, 0x1c, 0x00, 0x00,
            0xff, 0xff, 0x00, 0x00, 0x00, 0x00, 0x00, 0x00, 0x00, 0x00, 0x00, 0x00, 0xff, 0xff, 0x00, 0x00,
            0x00, 0x00, 0x00, 0x00, 0x00, 0x00, 0x00, 0x00, 0x1f, 0x1f, 0x1c, 0x1c, 0x1c, 0x1c, 0x1c, 0x1c,
            0x1c, 0x1c, 0x00, 0x00, 0xff, 0xff, 0x38, 0x38, 0xc0, 0xc0, 0x38, 0x38, 0xff, 0xff, 0x00, 0x00,
            0xff, 0xff, 0x00, 0x00, 0x0f, 0x0f, 0x00, 0x00, 0xff, 0xff, 0x00, 0x00, 0x1f, 0x1f, 0x00, 0x00,
            0x00, 0x00, 0x00, 0x00, 0x1f, 0x1f, 0x00, 0x00, 0xff, 0xff, 0xc0, 0xc0, 0x00, 0x00, 0x00, 0x00,
            0xff, 0xff, 0x00, 0x00, 0xff, 0xff, 0x01, 0x01, 0x0e, 0x0e, 0x70, 0x70, 0xff, 0xff, 0x00, 0x00,
            0x1f, 0x1f, 0x00, 0x00, 0x00, 0x00, 0x00, 0x00, 0x1f, 0x1f, 0x00, 0x00, 0xf8, 0xf8, 0x07, 0x07,
            0x07, 0x07, 0x07, 0x07, 0xf8, 0xf8, 0x00, 0x00, 0xff, 0xff, 0x00, 0x00, 0x00, 0x00, 0x00, 0x00,
            0xff, 0xff, 0x00, 0x00, 0x03, 0x03, 0x1c, 0x1c, 0x1c, 0x1c, 0x1c, 0x1c, 0x03, 0x03, 0x00, 0x00,
            0xff, 0xff, 0x07, 0x07, 0x07, 0x07, 0x07, 0x07, 0xf8, 0xf8, 0x00, 0x00, 0xff, 0xff, 0x0e, 0x0e,
            0x0e, 0x0e, 0x0e, 0x0e, 0x01, 0x01, 0x00, 0x00, 0x1f, 0x1f, 0x00, 0x00, 0x00, 0x00, 0x00, 0x00,
            0x00, 0x00, 0x00, 0x00, 0xf8, 0xf8, 0x07, 0x07, 0x07, 0x07, 0x07, 0x07, 0xf8, 0xf8, 0x00, 0x00,
            0xff, 0xff, 0x00, 0x00, 0x70, 0x70, 0x80, 0x80, 0x7f, 0x7f, 0x00, 0x00, 0x03, 0x03, 0x1c, 0x1c,
            0x1c, 0x1c, 0x03, 0x03, 0x1c, 0x1c, 0x00, 0x00, 0xff, 0xff, 0x07, 0x07, 0x07, 0x07, 0x07, 0x07,
            0xf8, 0xf8, 0x00, 0x00, 0xff, 0xff, 0x0e, 0x0e, 0x7e, 0x7e, 0x8e, 0x8e, 0x01, 0x01, 0x00, 0x00,
            0x1f, 0x1f, 0x00, 0x00, 0x00, 0x00, 0x03, 0x03, 0x1c, 0x1c, 0x00, 0x00, 0xf8, 0xf8, 0x07, 0x07,
            0x07, 0x07, 0x07, 0x07, 0x07, 0x07, 0x00, 0x00, 0x01, 0x01, 0x0e, 0x0e, 0x0e, 0x0e, 0x0e, 0x0e,
            0xf0, 0xf0, 0x00, 0x00, 0x1c, 0x1c, 0x1c, 0x1c, 0x1c, 0x1c, 0x1c, 0x1c, 0x03, 0x03, 0x00, 0x00,
            0x07, 0x07, 0x07, 0x07, 0xff, 0xff, 0x07, 0x07, 0x07, 0x07, 0x00, 0x00, 0x00, 0x00, 0x00, 0x00,
            0xff, 0xff, 0x00, 0x00, 0x00, 0x00, 0x00, 0x00, 0x00, 0x00, 0x00, 0x00, 0x1f, 0x1f, 0x00, 0x00,
            0x00, 0x00, 0x00, 0x00, 0xff, 0xff, 0x00, 0x00, 0x00, 0x00, 0x00, 0x00, 0xff, 0xff, 0x00, 0x00,
        ];
        ascii.append(&mut ascii_part4);
        let mut ascii_part5: Vec<u8> = vec![
            0xff, 0xff, 0x00, 0x00, 0x00, 0x00, 0x00, 0x00, 0xff, 0xff, 0x00, 0x00, 0x03, 0x03, 0x1c, 0x1c,
            0x1c, 0x1c, 0x1c, 0x1c, 0x03, 0x03, 0x00, 0x00, 0xff, 0xff, 0x00, 0x00, 0x00, 0x00, 0x00, 0x00,
            0xff, 0xff, 0x00, 0x00, 0x7f, 0x7f, 0x80, 0x80, 0x00, 0x00, 0x80, 0x80, 0x7f, 0x7f, 0x00, 0x00,
            0x00, 0x00, 0x03, 0x03, 0x1c, 0x1c, 0x03, 0x03, 0x00, 0x00, 0x00, 0x00, 0xff, 0xff, 0x00, 0x00,
            0x00, 0x00, 0x00, 0x00, 0xff, 0xff, 0x00, 0x00, 0xff, 0xff, 0x00, 0x00, 0xfe, 0xfe, 0x00, 0x00,
            0xff, 0xff, 0x00, 0x00, 0x03, 0x03, 0x1c, 0x1c, 0x03, 0x03, 0x1c, 0x1c, 0x03, 0x03, 0x00, 0x00,
            0x3f, 0x3f, 0xc0, 0xc0, 0x00, 0x00, 0xc0, 0xc0, 0x3f, 0x3f, 0x00, 0x00, 0x80, 0x80, 0x71, 0x71,
            0x0e, 0x0e, 0x71, 0x71, 0x80, 0x80, 0x00, 0x00, 0x1f, 0x1f, 0x00, 0x00, 0x00, 0x00, 0x00, 0x00,
            0x1f, 0x1f, 0x00, 0x00, 0xff, 0xff, 0x00, 0x00, 0x00, 0x00, 0x00, 0x00, 0xff, 0xff, 0x00, 0x00,
            0x01, 0x01, 0x0e, 0x0e, 0xf0, 0xf0, 0x0e, 0x0e, 0x01, 0x01, 0x00, 0x00, 0x00, 0x00, 0x00, 0x00,
            0x1f, 0x1f, 0x00, 0x00, 0x00, 0x00, 0x00, 0x00, 0x07, 0x07, 0x07, 0x07, 0x07, 0x07, 0xc7, 0xc7,
            0x3f, 0x3f, 0x00, 0x00, 0x80, 0x80, 0x70, 0x70, 0x0e, 0x0e, 0x01, 0x01, 0x00, 0x00, 0x00, 0x00,
            0x1f, 0x1f, 0x1c, 0x1c, 0x1c, 0x1c, 0x1c, 0x1c, 0x1c, 0x1c, 0x00, 0x00, 0x00, 0x00, 0xff, 0xff,
            0x07, 0x07, 0x07, 0x07, 0x00, 0x00, 0x00, 0x00, 0x00, 0x00, 0xff, 0xff, 0x00, 0x00, 0x00, 0x00,
            0x00, 0x00, 0x00, 0x00, 0x00, 0x00, 0x1f, 0x1f, 0x1c, 0x1c, 0x1c, 0x1c, 0x00, 0x00, 0x00, 0x00,
            0x38, 0x38, 0xc0, 0xc0, 0x00, 0x00, 0x00, 0x00, 0x00, 0x00, 0x00, 0x00, 0x00, 0x00, 0x01, 0x01,
            0x0e, 0x0e, 0x70, 0x70, 0x80, 0x80, 0x00, 0x00, 0x00, 0x00, 0x00, 0x00, 0x00, 0x00, 0x00, 0x00,
            0x03, 0x03, 0x00, 0x00, 0x00, 0x00, 0x07, 0x07, 0x07, 0x07, 0xff, 0xff, 0x00, 0x00, 0x00, 0x00,
            0x00, 0x00, 0x00, 0x00, 0x00, 0x00, 0xff, 0xff, 0x00, 0x00, 0x00, 0x00, 0x00, 0x00, 0x1c, 0x1c,
            0x1c, 0x1c, 0x1f, 0x1f, 0x00, 0x00, 0x00, 0x00, 0xc0, 0xc0, 0x38, 0x38, 0x07, 0x07, 0x38, 0x38,
            0xc0, 0xc0, 0x00, 0x00, 0x01, 0x01, 0x00, 0x00, 0x00, 0x00, 0x00, 0x00, 0x01, 0x01, 0x00, 0x00,
            0x00, 0x00, 0x00, 0x00, 0x00, 0x00, 0x00, 0x00, 0x00, 0x00, 0x00, 0x00, 0x00, 0x00, 0x00, 0x00,
            0x00, 0x00, 0x00, 0x00, 0x00, 0x00, 0x00, 0x00, 0x00, 0x00, 0x00, 0x00, 0x00, 0x00, 0x00, 0x00,
            0x00, 0x00, 0x00, 0x00, 0x1c, 0x1c, 0x1c, 0x1c, 0x1c, 0x1c, 0x1c, 0x1c, 0x1c, 0x1c, 0x00, 0x00,
        ];
        ascii.append(&mut ascii_part5);
        let mut ascii_part6: Vec<u8> = vec![
            0x00, 0x00, 0x07, 0x07, 0x38, 0x38, 0xc0, 0xc0, 0x00, 0x00, 0x00, 0x00, 0x00, 0x00, 0x00, 0x00,
            0x00, 0x00, 0x01, 0x01, 0x00, 0x00, 0x00, 0x00, 0x00, 0x00, 0x00, 0x00, 0x00, 0x00, 0x00, 0x00,
            0x00, 0x00, 0x00, 0x00, 0x00, 0x00, 0xc0, 0xc0, 0xc0, 0xc0, 0xc0, 0xc0, 0x00, 0x00, 0x00, 0x00,
            0x80, 0x80, 0x71, 0x71, 0x71, 0x71, 0x71, 0x71, 0xfe, 0xfe, 0x00, 0x00, 0x03, 0x03, 0x1c, 0x1c,
            0x1c, 0x1c, 0x1c, 0x1c, 0x1f, 0x1f, 0x00, 0x00, 0xff, 0xff, 0x00, 0x00, 0xc0, 0xc0, 0xc0, 0xc0,
            0x00, 0x00, 0x00, 0x00, 0xff, 0xff, 0x0e, 0x0e, 0x01, 0x01, 0x01, 0x01, 0xfe, 0xfe, 0x00, 0x00,
            0x1f, 0x1f, 0x1c, 0x1c, 0x1c, 0x1c, 0x1c, 0x1c, 0x03, 0x03, 0x00, 0x00, 0x00, 0x00, 0xc0, 0xc0,
            0xc0, 0xc0, 0xc0, 0xc0, 0x00, 0x00, 0x00, 0x00, 0xfe, 0xfe, 0x01, 0x01, 0x01, 0x01, 0x01, 0x01,
            0x80, 0x80, 0x00, 0x00, 0x03, 0x03, 0x1c, 0x1c, 0x1c, 0x1c, 0x1c, 0x1c, 0x03, 0x03, 0x00, 0x00,
            0x00, 0x00, 0xc0, 0xc0, 0xc0, 0xc0, 0x00, 0x00, 0xff, 0xff, 0x00, 0x00, 0xfe, 0xfe, 0x01, 0x01,
            0x01, 0x01, 0x0e, 0x0e, 0xff, 0xff, 0x00, 0x00, 0x03, 0x03, 0x1c, 0x1c, 0x1c, 0x1c, 0x1c, 0x1c,
            0x1f, 0x1f, 0x00, 0x00, 0x00, 0x00, 0xc0, 0xc0, 0xc0, 0xc0, 0xc0, 0xc0, 0x00, 0x00, 0x00, 0x00,
            0xfe, 0xfe, 0x71, 0x71, 0x71, 0x71, 0x71, 0x71, 0x7e, 0x7e, 0x00, 0x00, 0x03, 0x03, 0x1c, 0x1c,
            0x1c, 0x1c, 0x1c, 0x1c, 0x00, 0x00, 0x00, 0x00, 0x00, 0x00, 0xf8, 0xf8, 0x07, 0x07, 0x07, 0x07,
            0x38, 0x38, 0x00, 0x00, 0x0e, 0x0e, 0xff, 0xff, 0x0e, 0x0e, 0x00, 0x00, 0x00, 0x00, 0x00, 0x00,
            0x00, 0x00, 0x1f, 0x1f, 0x00, 0x00, 0x00, 0x00, 0x00, 0x00, 0x00, 0x00, 0xc0, 0xc0, 0x38, 0x38,
            0x38, 0x38, 0x38, 0x38, 0xf8, 0xf8, 0x00, 0x00, 0x0f, 0x0f, 0x70, 0x70, 0x70, 0x70, 0x70, 0x70,
            0xff, 0xff, 0x00, 0x00, 0x00, 0x00, 0x1c, 0x1c, 0x1c, 0x1c, 0x1c, 0x1c, 0x03, 0x03, 0x00, 0x00,
            0xff, 0xff, 0x00, 0x00, 0xc0, 0xc0, 0xc0, 0xc0, 0x00, 0x00, 0x00, 0x00, 0xff, 0xff, 0x0e, 0x0e,
            0x01, 0x01, 0x01, 0x01, 0xfe, 0xfe, 0x00, 0x00, 0x1f, 0x1f, 0x00, 0x00, 0x00, 0x00, 0x00, 0x00,
            0x1f, 0x1f, 0x00, 0x00, 0x00, 0x00, 0xc0, 0xc0, 0xc7, 0xc7, 0x00, 0x00, 0x00, 0x00, 0x00, 0x00,
            0x00, 0x00, 0x01, 0x01, 0xff, 0xff, 0x00, 0x00, 0x00, 0x00, 0x00, 0x00, 0x00, 0x00, 0x1c, 0x1c,
            0x1f, 0x1f, 0x1c, 0x1c, 0x00, 0x00, 0x00, 0x00, 0x00, 0x00, 0x00, 0x00, 0xc0, 0xc0, 0xc7, 0xc7,
            0x00, 0x00, 0x00, 0x00, 0x80, 0x80, 0x00, 0x00, 0x01, 0x01, 0xff, 0xff, 0x00, 0x00, 0x00, 0x00,
        ];
        ascii.append(&mut ascii_part6);
        let mut ascii_part7: Vec<u8> = vec![
            0x03, 0x03, 0x1c, 0x1c, 0x1c, 0x1c, 0x03, 0x03, 0x00, 0x00, 0x00, 0x00, 0xff, 0xff, 0x00, 0x00,
            0x00, 0x00, 0xc0, 0xc0, 0x00, 0x00, 0x00, 0x00, 0xff, 0xff, 0x70, 0x70, 0x8e, 0x8e, 0x01, 0x01,
            0x00, 0x00, 0x00, 0x00, 0x1f, 0x1f, 0x00, 0x00, 0x03, 0x03, 0x1c, 0x1c, 0x00, 0x00, 0x00, 0x00,
            0x00, 0x00, 0x07, 0x07, 0xff, 0xff, 0x00, 0x00, 0x00, 0x00, 0x00, 0x00, 0x00, 0x00, 0x00, 0x00,
            0xff, 0xff, 0x00, 0x00, 0x00, 0x00, 0x00, 0x00, 0x00, 0x00, 0x1c, 0x1c, 0x1f, 0x1f, 0x1c, 0x1c,
            0x00, 0x00, 0x00, 0x00, 0xc0, 0xc0, 0xc0, 0xc0, 0x00, 0x00, 0xc0, 0xc0, 0x00, 0x00, 0x00, 0x00,
            0xff, 0xff, 0x01, 0x01, 0x7e, 0x7e, 0x01, 0x01, 0xfe, 0xfe, 0x00, 0x00, 0x1f, 0x1f, 0x00, 0x00,
            0x00, 0x00, 0x00, 0x00, 0x1f, 0x1f, 0x00, 0x00, 0xc0, 0xc0, 0x00, 0x00, 0xc0, 0xc0, 0xc0, 0xc0,
            0x00, 0x00, 0x00, 0x00, 0xff, 0xff, 0x0e, 0x0e, 0x01, 0x01, 0x01, 0x01, 0xfe, 0xfe, 0x00, 0x00,
            0x1f, 0x1f, 0x00, 0x00, 0x00, 0x00, 0x00, 0x00, 0x1f, 0x1f, 0x00, 0x00, 0x00, 0x00, 0xc0, 0xc0,
            0xc0, 0xc0, 0xc0, 0xc0, 0x00, 0x00, 0x00, 0x00, 0xfe, 0xfe, 0x01, 0x01, 0x01, 0x01, 0x01, 0x01,
            0xfe, 0xfe, 0x00, 0x00, 0x03, 0x03, 0x1c, 0x1c, 0x1c, 0x1c, 0x1c, 0x1c, 0x03, 0x03, 0x00, 0x00,
            0xc0, 0xc0, 0xc0, 0xc0, 0xc0, 0xc0, 0xc0, 0xc0, 0x00, 0x00, 0x00, 0x00, 0xff, 0xff, 0x71, 0x71,
            0x71, 0x71, 0x71, 0x71, 0x0e, 0x0e, 0x00, 0x00, 0x1f, 0x1f, 0x00, 0x00, 0x00, 0x00, 0x00, 0x00,
            0x00, 0x00, 0x00, 0x00, 0x00, 0x00, 0xc0, 0xc0, 0xc0, 0xc0, 0x00, 0x00, 0xc0, 0xc0, 0x00, 0x00,
            0x0e, 0x0e, 0x71, 0x71, 0x71, 0x71, 0x7e, 0x7e, 0xff, 0xff, 0x00, 0x00, 0x00, 0x00, 0x00, 0x00,
            0x00, 0x00, 0x00, 0x00, 0x1f, 0x1f, 0x00, 0x00, 0xc0, 0xc0, 0x00, 0x00, 0xc0, 0xc0, 0xc0, 0xc0,
            0x00, 0x00, 0x00, 0x00, 0xff, 0xff, 0x0e, 0x0e, 0x01, 0x01, 0x01, 0x01, 0x0e, 0x0e, 0x00, 0x00,
            0x1f, 0x1f, 0x00, 0x00, 0x00, 0x00, 0x00, 0x00, 0x00, 0x00, 0x00, 0x00, 0x00, 0x00, 0xc0, 0xc0,
            0xc0, 0xc0, 0xc0, 0xc0, 0x00, 0x00, 0x00, 0x00, 0x0e, 0x0e, 0x71, 0x71, 0x71, 0x71, 0x71, 0x71,
            0x80, 0x80, 0x00, 0x00, 0x1c, 0x1c, 0x1c, 0x1c, 0x1c, 0x1c, 0x1c, 0x1c, 0x03, 0x03, 0x00, 0x00,
            0xc0, 0xc0, 0xff, 0xff, 0xc0, 0xc0, 0x00, 0x00, 0x00, 0x00, 0x00, 0x00, 0x01, 0x01, 0xff, 0xff,
            0x01, 0x01, 0x00, 0x00, 0x80, 0x80, 0x00, 0x00, 0x00, 0x00, 0x03, 0x03, 0x1c, 0x1c, 0x1c, 0x1c,
            0x03, 0x03, 0x00, 0x00, 0xc0, 0xc0, 0x00, 0x00, 0x00, 0x00, 0x00, 0x00, 0xc0, 0xc0, 0x00, 0x00,
        ];
        ascii.append(&mut ascii_part7);
        let mut ascii_part8: Vec<u8> = vec![
            0xff, 0xff, 0x00, 0x00, 0x00, 0x00, 0x80, 0x80, 0xff, 0xff, 0x00, 0x00, 0x03, 0x03, 0x1c, 0x1c,
            0x1c, 0x1c, 0x03, 0x03, 0x1f, 0x1f, 0x00, 0x00, 0xc0, 0xc0, 0x00, 0x00, 0x00, 0x00, 0x00, 0x00,
            0xc0, 0xc0, 0x00, 0x00, 0x7f, 0x7f, 0x80, 0x80, 0x00, 0x00, 0x80, 0x80, 0x7f, 0x7f, 0x00, 0x00,
            0x00, 0x00, 0x03, 0x03, 0x1c, 0x1c, 0x03, 0x03, 0x00, 0x00, 0x00, 0x00, 0xc0, 0xc0, 0x00, 0x00,
            0x00, 0x00, 0x00, 0x00, 0xc0, 0xc0, 0x00, 0x00, 0xff, 0xff, 0x00, 0x00, 0xf0, 0xf0, 0x00, 0x00,
            0xff, 0xff, 0x00, 0x00, 0x03, 0x03, 0x1c, 0x1c, 0x03, 0x03, 0x1c, 0x1c, 0x03, 0x03, 0x00, 0x00,
            0xc0, 0xc0, 0x00, 0x00, 0x00, 0x00, 0x00, 0x00, 0xc0, 0xc0, 0x00, 0x00, 0x01, 0x01, 0x8e, 0x8e,
            0x70, 0x70, 0x8e, 0x8e, 0x01, 0x01, 0x00, 0x00, 0x1c, 0x1c, 0x03, 0x03, 0x00, 0x00, 0x03, 0x03,
            0x1c, 0x1c, 0x00, 0x00, 0xc0, 0xc0, 0x00, 0x00, 0x00, 0x00, 0x00, 0x00, 0xc0, 0xc0, 0x00, 0x00,
            0x0f, 0x0f, 0x70, 0x70, 0x70, 0x70, 0x70, 0x70, 0xff, 0xff, 0x00, 0x00, 0x00, 0x00, 0x1c, 0x1c,
            0x1c, 0x1c, 0x1c, 0x1c, 0x03, 0x03, 0x00, 0x00, 0xc0, 0xc0, 0xc0, 0xc0, 0xc0, 0xc0, 0xc0, 0xc0,
            0xc0, 0xc0, 0x00, 0x00, 0x01, 0x01, 0x81, 0x81, 0x71, 0x71, 0x0f, 0x0f, 0x01, 0x01, 0x00, 0x00,
            0x1c, 0x1c, 0x1f, 0x1f, 0x1c, 0x1c, 0x1c, 0x1c, 0x1c, 0x1c, 0x00, 0x00, 0x00, 0x00, 0x00, 0x00,
            0xf8, 0xf8, 0x07, 0x07, 0x00, 0x00, 0x00, 0x00, 0x00, 0x00, 0x0e, 0x0e, 0xf1, 0xf1, 0x00, 0x00,
            0x00, 0x00, 0x00, 0x00, 0x00, 0x00, 0x00, 0x00, 0x03, 0x03, 0x1c, 0x1c, 0x00, 0x00, 0x00, 0x00,
            0x00, 0x00, 0x00, 0x00, 0xff, 0xff, 0x00, 0x00, 0x00, 0x00, 0x00, 0x00, 0x00, 0x00, 0x00, 0x00,
            0xff, 0xff, 0x00, 0x00, 0x00, 0x00, 0x00, 0x00, 0x00, 0x00, 0x00, 0x00, 0x1f, 0x1f, 0x00, 0x00,
            0x00, 0x00, 0x00, 0x00, 0x00, 0x00, 0x07, 0x07, 0xf8, 0xf8, 0x00, 0x00, 0x00, 0x00, 0x00, 0x00,
            0x00, 0x00, 0x00, 0x00, 0xf1, 0xf1, 0x0e, 0x0e, 0x00, 0x00, 0x00, 0x00, 0x00, 0x00, 0x1c, 0x1c,
            0x03, 0x03, 0x00, 0x00, 0x00, 0x00, 0x00, 0x00, 0x38, 0x38, 0x07, 0x07, 0x38, 0x38, 0xc0, 0xc0,
            0x38, 0x38, 0x00, 0x00, 0x00, 0x00, 0x00, 0x00, 0x00, 0x00, 0x01, 0x01, 0x00, 0x00, 0x00, 0x00,
            0x00, 0x00, 0x00, 0x00, 0x00, 0x00, 0x00, 0x00, 0x00, 0x00, 0x00, 0x00,
        ];
        ascii.append(&mut ascii_part8);
        let ext_chars: Vec<char> = vec!['\u{b0}'];
        let ext: Vec<u8> = vec![
            0x00, 0x00, 0xf8, 0xf8, 0x07, 0x07, 0x07, 0x07, 0xf8, 0xf8, 0x00, 0x00, 0x00, 0x00, 0x01, 0x01,
            0x0e, 0x0e, 0x0e, 0x0e, 0x01, 0x01, 0x00, 0x00, 0x00, 0x00, 0x00, 0x00, 0x00, 0x00, 0x00, 0x00,
            0x00, 0x00, 0x00, 0x00,
        ];
        Font { height: 24, width: 12, ascii, ext_width: 12, ext_chars, ext }
    }

    /// The catalog entry for a nominal pixel height, or `None` where no
    /// table is configured for it: the caller chooses how to recover.
    pub fn by_height(height: u8) -> (r: Option<Font>)
        ensures
            match r {
                Some(f) => (height == 8 || height == 16 || height == 24) && f.wf() && f.height
                    == height,
                None => height != 8 && height != 16 && height != 24,
            },
    {
        if height == 8 {
            Some(Font::font8())
        } else if height == 16 {
            Some(Font::font16())
        } else if height == 24 {
            Some(Font::font24())
        } else {
            None
        }
    }
}

} // verus!
