use oled_core::text::Buffer;

fn chars(s: &str) -> Vec<char> {
    s.chars().collect()
}

#[test]
fn new_buffer_is_empty() {
    let buf = Buffer::new(3);
    assert_eq!(buf.line_count(), 0);
    assert!(buf.get(0).is_none());
}

#[test]
fn push_opens_a_line_for_the_first_character() {
    let mut buf = Buffer::new(3);
    buf.push("hi".to_string());
    assert_eq!(buf.line_count(), 1);
    assert_eq!(buf.get(0), Some(&chars("hi")));
}

#[test]
fn newline_scrolls_and_evicts_the_oldest() {
    let mut buf = Buffer::new(3);
    buf.push("a\nb\nc\nd".to_string());
    assert_eq!(buf.line_count(), 3);
    assert_eq!(buf.get(0), Some(&chars("d")));
    assert_eq!(buf.get(1), Some(&chars("c")));
    assert_eq!(buf.get(2), Some(&chars("b")));
    assert!(buf.get(3).is_none());
}

#[test]
fn carriage_return_overwrites_in_place() {
    let mut buf = Buffer::new(3);
    buf.push("ab\rX".to_string());
    assert_eq!(buf.line_count(), 1);
    assert_eq!(buf.get(0), Some(&chars("Xb")));
}

#[test]
fn carriage_return_keeps_the_tail_on_a_second_push() {
    let mut buf = Buffer::new(2);
    buf.push("12:34:56".to_string());
    buf.push("\r23:45:0".to_string());
    assert_eq!(buf.line_count(), 1);
    assert_eq!(buf.get(0), Some(&chars("23:45:06")));
}

#[test]
fn append_at_the_line_end_grows_it() {
    let mut buf = Buffer::new(2);
    buf.push("ab".to_string());
    buf.push("c".to_string());
    assert_eq!(buf.get(0), Some(&chars("abc")));
}

#[test]
fn newline_resets_the_cursor() {
    let mut buf = Buffer::new(3);
    buf.push("abc\nZ".to_string());
    assert_eq!(buf.get(0), Some(&chars("Z")));
    assert_eq!(buf.get(1), Some(&chars("abc")));
}

#[test]
fn capacity_one_keeps_only_the_newest() {
    let mut buf = Buffer::new(1);
    buf.push("a\nb".to_string());
    assert_eq!(buf.line_count(), 1);
    assert_eq!(buf.get(0), Some(&chars("b")));
}

#[test]
fn clear_returns_to_the_initial_state() {
    let mut buf = Buffer::new(3);
    buf.push("a\nb".to_string());
    buf.clear();
    assert_eq!(buf.line_count(), 0);
    assert!(buf.get(0).is_none());
    buf.push("x".to_string());
    assert_eq!(buf.get(0), Some(&chars("x")));
}

#[test]
fn any_push_opens_the_first_line() {
    let mut buf = Buffer::new(3);
    buf.push(String::new());
    assert_eq!(buf.line_count(), 1);
    assert_eq!(buf.get(0), Some(&chars("")));
}
