//! The locales that messages are localized to.

use localization::locales::{localization_parse_locale, parse_locales};
use localization::localization::{localization_new, localization_new_with_locales};
use localization::nsstring::NsCString;
use thin_vec::ThinVec;
use unic_langid::LanguageIdentifier;

fn names(locales: &[&str]) -> ThinVec<NsCString> {
    let mut list = ThinVec::new();
    for locale in locales {
        list.push(NsCString::from_text(locale));
    }
    list
}

fn locale(text: &str) -> LanguageIdentifier {
    text.parse().unwrap()
}

#[test]
fn locale_is_read() {
    assert_eq!(
        localization_parse_locale(&NsCString::from_text("en_us")),
        Some(locale("en-US"))
    );
    assert_eq!(
        localization_parse_locale(&NsCString::from_text("ja-JP-x")),
        None
    );
    assert_eq!(localization_parse_locale(&NsCString::from_bytes(vec![0xff, 0xfe])), None);
    assert_eq!(localization_parse_locale(&NsCString::void()), None);
}

#[test]
fn locales_are_read_in_order() {
    assert_eq!(
        parse_locales(&names(&["fr", "EN-us", "pl"])),
        Some(vec![locale("fr"), locale("en-US"), locale("pl")])
    );
    assert_eq!(parse_locales(&names(&[])), Some(vec![]));
}

#[test]
fn one_bad_locale_spoils_all() {
    assert_eq!(parse_locales(&names(&["fr", "not a locale"])), None);
    assert_eq!(parse_locales(&names(&["", "fr"])), None);
}

#[test]
fn handle_is_made_for_named_locales() {
    let handle = localization_new_with_locales(false, Some(&names(&["de", "en"]))).unwrap();
    assert!(!handle.is_sync());
    assert_eq!(handle.locales(), Some(&vec![locale("de"), locale("en")]));
}

#[test]
fn handle_is_made_for_the_locales_of_the_browser() {
    let handle = localization_new_with_locales(true, None).unwrap();
    assert!(handle.is_sync());
    assert_eq!(handle.locales(), None);
    let same = localization_new(true);
    assert_eq!(same.is_sync(), handle.is_sync());
    assert_eq!(same.locales(), handle.locales());
}

#[test]
fn bad_locale_makes_no_handle() {
    assert!(localization_new_with_locales(true, Some(&names(&["de", "-"]))).is_none());
}
