use oled_core::font::{Font, LookupError};

#[test]
fn ascii_glyph_has_one_cell_of_bytes() {
    let f = Font::font8();
    let g = f.get_char('A').unwrap();
    assert_eq!(g.rows, 1);
    assert_eq!(g.cols, 6);
    assert_eq!(g.data.len(), 6);

    let f16 = Font::font16();
    let g16 = f16.get_char('A').unwrap();
    assert_eq!(g16.rows, 2);
    assert_eq!(g16.cols, 8);
    assert_eq!(g16.data.len(), 16);

    let f24 = Font::font24();
    let g24 = f24.get_char('A').unwrap();
    assert_eq!(g24.rows, 3);
    assert_eq!(g24.cols, 12);
    assert_eq!(g24.data.len(), 36);
}

#[test]
fn zero_digit_glyph_bytes() {
    let f = Font::font8();
    let g = f.get_char('0').unwrap();
    assert_eq!(g.data, vec![0x3e, 0x51, 0x49, 0x45, 0x3e, 0x00]);
}

#[test]
fn space_is_first_table_entry() {
    let f = Font::font8();
    let g = f.get_char(' ').unwrap();
    assert_eq!(g.data, vec![0x00; 6]);
}

#[test]
fn low_control_characters_fail() {
    let f = Font::font8();
    assert!(matches!(f.get_char('\u{1}'), Err(LookupError::NotRepresentable)));
    assert!(matches!(f.get_char('\n'), Err(LookupError::NotRepresentable)));
    assert_eq!(f.get_char_width('\r'), Err(LookupError::NotRepresentable));
}

#[test]
fn delete_is_outside_the_repertoire() {
    let f = Font::font8();
    assert!(matches!(f.get_char('\u{7f}'), Err(LookupError::NotRepresentable)));
}

#[test]
fn unknown_non_ascii_fails() {
    let f = Font::font8();
    assert!(matches!(f.get_char('\u{e9}'), Err(LookupError::NotRepresentable)));
    assert_eq!(f.get_char_width('\u{4e2d}'), Err(LookupError::NotRepresentable));
}

#[test]
fn degree_sign_is_in_the_extra_repertoire() {
    let f = Font::font8();
    let g = f.get_char('\u{b0}').unwrap();
    assert_eq!(g.rows, 1);
    assert_eq!(g.cols, 6);
    assert_eq!(f.get_char_width('\u{b0}'), Ok(6));
}

#[test]
fn ascii_advance_width_is_the_stride() {
    assert_eq!(Font::font8().get_char_width('x'), Ok(6));
    assert_eq!(Font::font16().get_char_width('x'), Ok(8));
    assert_eq!(Font::font24().get_char_width('x'), Ok(12));
}

#[test]
fn font_heights() {
    assert_eq!(Font::font8().get_font_height(), 8);
    assert_eq!(Font::font16().get_font_height(), 16);
    assert_eq!(Font::font24().get_font_height(), 24);
}

#[test]
fn by_height_knows_the_catalog() {
    assert_eq!(Font::by_height(8).map(|f| f.get_font_height()), Some(8));
    assert_eq!(Font::by_height(16).map(|f| f.get_font_height()), Some(16));
    assert_eq!(Font::by_height(24).map(|f| f.get_font_height()), Some(24));
    assert!(Font::by_height(9).is_none());
    assert!(Font::by_height(0).is_none());
}
