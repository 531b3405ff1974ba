//! The byte strings of the browser.

use localization::nsstring::NsCString;

#[test]
fn text_is_read_back() {
    for text in ["", "menu", "Menü 日本 🦊"] {
        let string = NsCString::from_text(text);
        assert_eq!(string.to_utf8(), text);
        assert_eq!(string.as_bytes(), text.as_bytes());
        assert!(!string.is_void());
    }
}

#[test]
fn what_is_not_utf8_is_replaced() {
    assert_eq!(NsCString::from_bytes(vec![b'a', 0xff, b'b']).to_utf8(), "a\u{fffd}b");
    assert_eq!(NsCString::from_bytes(vec![0xe6, 0x97]).to_utf8(), "\u{fffd}");
    assert_eq!(NsCString::from_bytes(vec![0xe6, 0x97, 0xa5]).to_utf8(), "日");
}

#[test]
fn void_is_not_empty() {
    let void = NsCString::void();
    let empty = NsCString::new();
    assert!(void.is_void());
    assert!(!empty.is_void());
    assert_ne!(void, empty);
    assert_eq!(void.to_utf8(), "");
    assert_eq!(empty.to_utf8(), "");
    assert_eq!(void.as_bytes(), empty.as_bytes());
}

#[test]
fn assigning_ends_voidness_and_voiding_ends_text() {
    let mut string = NsCString::void();
    string.assign("text");
    assert_eq!(string, NsCString::from_text("text"));
    string.set_void();
    assert_eq!(string, NsCString::void());
    string.assign("");
    assert_eq!(string, NsCString::new());
}
