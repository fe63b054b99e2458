use easystring::{NulBytes, PathText, PlatformText, Text, Textable};

const STRING: &'static str = "EaSyStRiNg";

#[test]
fn zero() {
    assert_eq!(Text::new().len(), 0);
}

#[test]
fn non_zero() {
    let text = Text::from_value("1234567890");
    assert_eq!(text.len(), 10);
}

#[test]
fn empty() {
    assert!(Text::new().is_empty());
}

#[test]
fn not_empty() {
    let text = Text::from_value("1234567890");
    assert!(!text.is_empty());
}

#[test]
fn text_str() {
    let text = Text::from_value(STRING);
    assert_eq!(text, STRING);
}

#[test]
fn text_string() {
    let string = String::from(STRING);
    let text = Text::from_value(string);
    assert_eq!(text, STRING);
}

#[test]
fn text_path() {
    let path = PathText::from_text(STRING);
    let text = Text::from_value(&path);
    assert_eq!(text, STRING);
}

#[test]
fn text_pathbuf() {
    let path = PathText::from_vec(STRING.as_bytes().to_vec());
    let text = Text::from_value(path);
    assert_eq!(text, STRING);
}

#[test]
fn text_equals_string_both_orders() {
    let text = Text::from_value(STRING);
    let string = String::from(STRING);
    assert!(text == string);
    assert!(string == text);
    assert!(STRING == text);
    assert!(text == STRING);
}

#[test]
fn text_equals_path_and_platform() {
    let text = Text::from_value(STRING);
    let path = PathText::from_text(STRING);
    assert!(text == path);
    assert!(path == text);
    let platform = PlatformText::from_text(STRING);
    assert!(text == platform);
    assert!(platform == text);
    let nul = NulBytes::new(STRING.as_bytes().to_vec()).unwrap();
    assert!(text == nul);
    assert!(nul == text);
}

#[test]
fn equality_by_reference() {
    let text = Text::from_value(STRING);
    assert_eq!(&text, &STRING);
    let string = String::from(STRING);
    assert_eq!(&text, &string);
    let path = PathText::from_text(STRING);
    assert_eq!(&text, &path);
    let pathbuf = PathText::from_vec(STRING.as_bytes().to_vec());
    assert_eq!(&text, &pathbuf);
}

#[test]
fn add_text() {
    let t1 = Text::from_value("123");
    let t2 = Text::from_value("456");
    let text = t1 + t2;
    assert_eq!(text, "123456");
}

#[test]
fn add_string() {
    let t1 = Text::from_value("123");
    let t2 = String::from("456");
    let text = t1 + t2;
    assert_eq!(text, "123456");
}

#[test]
fn add_path() {
    let t1 = Text::from_value("123");
    let t2 = PathText::from_text("456");
    let text = t1 + t2;
    assert_eq!(text, "123456");
}

#[test]
fn add_pathbuf() {
    let t1 = Text::from_value("123");
    let t2 = PathText::from_vec(b"456".to_vec());
    let text = t1 + t2;
    assert_eq!(text, "123456");
}

#[test]
fn add_str_has_length_six() {
    let text = Text::from_value("123") + "456";
    assert_eq!(text.len(), 6);
    assert_eq!(text, "123456");
    assert_eq!(text.to_flat_vec(), b"123456".to_vec());
}

#[test]
fn full_segment_equality_not_primary_view() {
    let text = Text::from_value("123") + Text::from_value("456");
    assert_eq!(text.segment_count(), 2);
    assert_eq!(text, "123456");
    assert_ne!(text, "123");
    assert_eq!(text.primary_view(), b"123");
    assert_eq!(text.display_string(), "123");
    assert_eq!(text.len(), 6);
}

#[test]
fn idempotent_empty() {
    let mut text = Text::new();
    text.append(Text::new());
    assert!(text.is_empty());
    assert_eq!(text.len(), 0);
}

#[test]
fn empty_segments_still_empty() {
    let text = Text::from_value("") + Text::from_value("");
    assert_eq!(text.segment_count(), 2);
    assert!(text.is_empty());
    assert_eq!(text.len(), 0);
}

#[test]
fn length_is_sum_of_segments() {
    let mut text = Text::new();
    text.append_value("ab");
    text.append_value(PlatformText::from_vec(vec![0xFF, 0xFE, 0xFD]));
    text.append_value(PathText::from_text("cdef"));
    assert_eq!(text.segment_count(), 3);
    assert_eq!(text.len(), 2 + 3 + 4);
}

#[test]
fn concatenation_is_associative() {
    let left = (Text::from_value("ab") + Text::from_value("cd")) + Text::from_value("ef");
    let right = Text::from_value("ab") + (Text::from_value("cd") + Text::from_value("ef"));
    assert!(left == right);
    assert_eq!(left.to_flat_vec(), right.to_flat_vec());
    assert_eq!(left, "abcdef");
    assert_eq!(right, "abcdef");
}

#[test]
fn append_keeps_order() {
    let mut text = Text::from_value("first");
    text.append(Text::from_value("second"));
    assert_eq!(text, "firstsecond");
    assert_ne!(text, "secondfirst");
}

#[test]
fn to_text_wraps_one_segment() {
    let text = "abc".to_text();
    assert_eq!(text.segment_count(), 1);
    assert_eq!(text, "abc");
    let path_text = PathText::from_text("xyz").to_text();
    assert_eq!(path_text, "xyz");
}

#[test]
fn lossy_conversion_out() {
    let valid = Text::from_value("123") + "456";
    assert_eq!(valid.to_utf8_lossy(), "123456");
    let invalid = Text::from_value("a") + PlatformText::from_vec(vec![0xFF]);
    assert_eq!(invalid.to_utf8_lossy(), "a\u{FFFD}");
}

#[test]
fn primary_view_of_empty_text() {
    let text = Text::new();
    let view: &[u8] = text.primary_view();
    assert_eq!(view, b"");
    assert_eq!(text.display_string(), "");
}
