use easystring::{Content, ContentKind, NulBytes, NulError, PathText, PlatformText, ToContent};

#[test]
fn range_full() {
    let content = Content::from_value("abcde");
    assert_eq!(content.canonical_view(), b"abcde");
}

#[test]
fn range() {
    let content = Content::from_value("abcde");
    assert_eq!(content.slice(1, 3), b"bc");
}

#[test]
fn with_str() {
    let content = Content::from_value("12345");
    assert_eq!(content, "12345");
}

#[test]
fn with_string() {
    let content = Content::from_value("12345");
    let string = String::from("12345");
    assert_eq!(content, string);
}

#[test]
fn with_platform_text() {
    let content = Content::from_value("12345");
    let platform = PlatformText::from_text("12345");
    assert_eq!(content, platform);
}

#[test]
fn with_platform_bytes() {
    let content = Content::from_value("12345");
    let platform = PlatformText::from_vec(b"12345".to_vec());
    assert_eq!(content, platform);
}

#[test]
fn with_nul_bytes() {
    let content = Content::from_value("12345");
    let nul = NulBytes::new(b"12345".to_vec()).unwrap();
    assert_eq!(content, nul);
}

#[test]
fn with_path() {
    let content = Content::from_value("12345");
    let path = PathText::from_text("12345");
    assert_eq!(content, path);
}

#[test]
fn with_pathbuf() {
    let content = Content::from_value("12345");
    let pathbuf = PathText::from_vec(b"12345".to_vec());
    assert_eq!(content, pathbuf);
}

#[test]
fn equality_is_symmetric() {
    let content = Content::from_value("12345");
    assert!(content == "12345");
    assert!("12345" == content);
    assert!(content != "1234");
    assert!("1234" != content);
    let string = String::from("12345");
    assert!(content == string);
    assert!(string == content);
    let platform = PlatformText::from_text("12345");
    assert!(content == platform);
    assert!(platform == content);
    let path = PathText::from_text("12345");
    assert!(content == path);
    assert!(path == content);
    let nul = NulBytes::new(b"12345".to_vec()).unwrap();
    assert!(content == nul);
    assert!(nul == content);
}

#[test]
fn cross_variant_equality() {
    let utf8 = Content::from_value("same");
    let platform = Content::from_value(PlatformText::from_vec(b"same".to_vec()));
    let nul = Content::from_value(NulBytes::new(b"same".to_vec()).unwrap());
    let path = Content::from_value(PathText::from_vec(b"same".to_vec()));
    assert!(utf8.equals(&platform));
    assert!(platform.equals(&nul));
    assert!(nul.equals(&path));
    assert!(path.equals(&utf8));
    assert_eq!(utf8, platform);
    assert_eq!(platform, nul);
    assert_eq!(nul, path);
    let other = Content::from_value("other");
    assert!(!utf8.equals(&other));
}

#[test]
fn conversion_fixes_the_variant() {
    assert_eq!("x".to_content().kind_value(), ContentKind::Utf8String);
    assert_eq!(String::from("x").to_content().kind_value(), ContentKind::Utf8String);
    assert_eq!(
        PlatformText::from_vec(vec![1]).to_content().kind_value(),
        ContentKind::PlatformString
    );
    assert_eq!(
        NulBytes::new(vec![1]).unwrap().to_content().kind_value(),
        ContentKind::NulTerminatedByteString
    );
    assert_eq!(PathText::from_vec(vec![1]).to_content().kind_value(), ContentKind::FilesystemPath);
}

#[test]
fn borrowed_sources_convert_by_copy() {
    let platform = PlatformText::from_vec(b"pp".to_vec());
    let from_borrow = (&platform).to_content();
    assert_eq!(from_borrow, platform);
    let nul = NulBytes::new(b"nn".to_vec()).unwrap();
    assert_eq!((&nul).to_content(), nul);
    let path = PathText::from_vec(b"qq".to_vec());
    assert_eq!((&path).to_content(), path);
    let text: &str = "tt";
    assert_eq!(text.to_content(), "tt");
}

#[test]
fn cow_sources_convert() {
    let borrowed: std::borrow::Cow<'_, str> = std::borrow::Cow::Borrowed("ab");
    assert_eq!(borrowed.to_content(), "ab");
    let owned: std::borrow::Cow<'_, str> = std::borrow::Cow::Owned(String::from("cd"));
    assert_eq!(owned.to_content(), "cd");
    let platform = PlatformText::from_vec(b"pp".to_vec());
    let cow_platform: std::borrow::Cow<'_, PlatformText> = std::borrow::Cow::Borrowed(&platform);
    assert_eq!(cow_platform.to_content(), platform);
    let path = PathText::from_vec(b"qq".to_vec());
    let cow_path: std::borrow::Cow<'_, PathText> = std::borrow::Cow::Owned(path);
    assert_eq!(cow_path.to_content(), PathText::from_vec(b"qq".to_vec()));
}

#[test]
fn utf8_length_is_in_bytes() {
    let content = Content::from_value(String::from("\u{00E9}"));
    assert_eq!(content.len(), 2);
    assert_eq!(content.canonical_view(), &[0xC3u8, 0xA9u8]);
    let multibyte = Content::from_value("a\u{00E9}");
    assert_eq!(multibyte.len(), 3);
}

#[test]
fn content_length_and_emptiness() {
    let content = Content::from_value("abcde");
    assert_eq!(content.len(), 5);
    assert!(!content.is_empty());
    let empty = Content::from_value("");
    assert_eq!(empty.len(), 0);
    assert!(empty.is_empty());
    let platform = Content::from_value(PlatformText::from_vec(vec![0xFF, 0xFE]));
    assert_eq!(platform.len(), 2);
}

#[test]
fn interior_nul_is_rejected() {
    let err = NulBytes::new(b"ab\0cd".to_vec()).unwrap_err();
    assert_eq!(err, NulError { position: 2 });
    let err_at_start = NulBytes::new(b"\0x".to_vec()).unwrap_err();
    assert_eq!(err_at_start.position, 0);
    assert!(NulBytes::new(b"abcd".to_vec()).is_ok());
    assert!(NulBytes::new(Vec::new()).is_ok());
}

#[test]
fn display_is_lossy_never_fails() {
    let valid = Content::from_value("abc");
    assert_eq!(valid.display_string(), "abc");
    let invalid = Content::from_value(PlatformText::from_vec(vec![0x61, 0xFF, 0x62]));
    assert_eq!(invalid.display_string(), "a\u{FFFD}b");
}

#[test]
fn slicing_is_by_byte_offset() {
    let content = Content::from_value("a\u{00E9}b");
    assert_eq!(content.len(), 4);
    assert_eq!(content.slice(0, 1), b"a");
    let cut = content.slice(1, 2);
    assert_eq!(cut, &[0xC3u8]);
}
