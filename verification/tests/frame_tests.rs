use oled_core::font::{Font, LookupError};
use oled_core::frame::FrameBuffer;
use oled_core::text::Buffer;
use oled_core::{color_mode_cmd, OLEDColorMode, PAGE, WIDTH};

fn chars(s: &str) -> Vec<char> {
    s.chars().collect()
}

#[test]
fn new_buffer_is_all_zero() {
    let fb = FrameBuffer::new();
    let snap = fb.snapshot();
    assert_eq!(snap.len(), PAGE * WIDTH);
    assert!(snap.iter().all(|&b| b == 0));
}

#[test]
fn set_pixel_sets_one_bit() {
    let mut fb = FrameBuffer::new();
    fb.setpixel(0, 0, true);
    assert_eq!(fb.snapshot()[0], 0x01);

    fb.setpixel(5, 9, true);
    // page 1 (rows 8..16), bit 1 of the byte at column 5
    assert_eq!(fb.snapshot()[1 * WIDTH + 5], 0x02);
}

#[test]
fn set_then_clear_restores_the_byte() {
    let mut fb = FrameBuffer::new();
    fb.setpixel(7, 3, true);
    let before = fb.snapshot().clone();
    fb.setpixel(7, 4, true);
    fb.setpixel(7, 4, false);
    assert_eq!(fb.snapshot(), &before);
}

#[test]
fn out_of_bounds_pixels_are_dropped() {
    let mut fb = FrameBuffer::new();
    fb.setpixel(3, 3, true);
    let before = fb.snapshot().clone();
    fb.setpixel(WIDTH as u8, 0, true);
    fb.setpixel(0, 64, true);
    fb.setpixel(255, 255, true);
    assert_eq!(fb.snapshot(), &before);
}

#[test]
fn newframe_zeroes_everything() {
    let mut fb = FrameBuffer::new();
    fb.setpixel(10, 10, true);
    fb.setpixel(100, 60, true);
    fb.newframe();
    let snap = fb.snapshot();
    assert_eq!(snap.len(), PAGE * WIDTH);
    assert!(snap.iter().all(|&b| b == 0));
}

#[test]
fn aligned_glyph_writes_whole_bytes() {
    let font = Font::font16();
    let g = font.get_char('A').unwrap();
    let mut fb = FrameBuffer::new();
    let r = fb.print_char(20, 16, &font, 'A');
    assert_eq!(r, Ok((8, 16)));
    let snap = fb.snapshot();
    // the glyph's two byte rows land whole on pages 2 and 3
    for i in 0..g.rows {
        for j in 0..g.cols {
            assert_eq!(snap[(2 + i) * WIDTH + 20 + j], g.data[i * g.cols + j]);
        }
    }
    // the pages above and below are untouched
    for j in 0..g.cols {
        assert_eq!(snap[1 * WIDTH + 20 + j], 0);
        assert_eq!(snap[4 * WIDTH + 20 + j], 0);
    }
    // columns beside the glyph are untouched
    assert_eq!(snap[2 * WIDTH + 19], 0);
    assert_eq!(snap[2 * WIDTH + 28], 0);
}

#[test]
fn split_glyph_recombines_to_the_original() {
    let font = Font::font8();
    let g = font.get_char('0').unwrap();
    let mut fb = FrameBuffer::new();
    let r = fb.print_char(40, 12, &font, '0');
    assert_eq!(r, Ok((6, 8)));
    let snap = fb.snapshot();
    // offset 4: page 1 holds the low half, page 2 the high half
    for j in 0..g.cols {
        let b = g.data[j];
        let low = snap[1 * WIDTH + 40 + j];
        let high = snap[2 * WIDTH + 40 + j];
        assert_eq!(low, b << 4);
        assert_eq!(high, b >> 4);
        assert_eq!((low >> 4) | (high << 4), b);
    }
}

#[test]
fn print_char_fails_without_drawing() {
    let font = Font::font8();
    let mut fb = FrameBuffer::new();
    fb.setpixel(1, 1, true);
    let before = fb.snapshot().clone();
    let r = fb.print_char(0, 0, &font, '\u{7}');
    assert_eq!(r, Err(LookupError::NotRepresentable));
    assert_eq!(fb.snapshot(), &before);
}

#[test]
fn print_string_stops_at_the_first_bad_character() {
    let font = Font::font8();
    let mut fb = FrameBuffer::new();
    let r = fb.print_string(0, 0, &font, "A\u{1}B");
    assert_eq!(r, Err(LookupError::NotRepresentable));

    // everything before the failure is already rendered
    let mut only_a = FrameBuffer::new();
    only_a.print_string(0, 0, &font, "A").unwrap();
    assert_eq!(fb.snapshot(), only_a.snapshot());
}

#[test]
fn print_string_advances_by_glyph_width() {
    let font = Font::font8();
    let mut fb = FrameBuffer::new();
    fb.print_string(0, 0, &font, "00").unwrap();
    let g = font.get_char('0').unwrap();
    let snap = fb.snapshot();
    for j in 0..6 {
        assert_eq!(snap[j], g.data[j]);
        assert_eq!(snap[6 + j], g.data[j]);
    }
}

#[test]
fn print_string_wraps_at_the_right_edge() {
    let font = Font::font8();
    let g = font.get_char('1').unwrap();
    let mut fb = FrameBuffer::new();
    // the first glyph ends the row; the second starts at column 0, one
    // font height lower
    fb.print_string(126, 0, &font, "11").unwrap();
    let snap = fb.snapshot();
    assert_eq!(snap[126], g.data[0]);
    assert_eq!(snap[127], g.data[1]);
    for j in 0..6 {
        assert_eq!(snap[1 * WIDTH + j], g.data[j]);
    }
}

#[test]
fn print_chars_matches_print_string() {
    let font = Font::font16();
    let mut a = FrameBuffer::new();
    let mut b = FrameBuffer::new();
    a.print_string(5, 3, &font, "Hi!").unwrap();
    b.print_chars(5, 3, &font, &chars("Hi!")).unwrap();
    assert_eq!(a.snapshot(), b.snapshot());
}

#[test]
fn display_buffer_renders_lines_top_down() {
    let font = Font::font8();
    let mut buf = Buffer::new(4);
    buf.push("old\nnew".to_string());

    let mut fb = FrameBuffer::new();
    fb.setpixel(0, 0, true);
    fb.display_buffer(&buf, 0, 0, &font);

    let mut expect = FrameBuffer::new();
    expect.print_string(0, 0, &font, "new").unwrap();
    expect.print_string(0, 8, &font, "old").unwrap();
    assert_eq!(fb.snapshot(), expect.snapshot());
}

#[test]
fn color_mode_command_bytes() {
    assert_eq!(color_mode_cmd(OLEDColorMode::ColorNormal), 0xa6);
    assert_eq!(color_mode_cmd(OLEDColorMode::ColorReserved), 0xa7);
}
