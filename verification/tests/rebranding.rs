//! The names under which text is shown.

use localization::rebrand::rebrand;

#[test]
fn names_are_replaced() {
    assert_eq!(rebrand("Firefox"), "Floorp");
    assert_eq!(rebrand("Mozilla"), "Ablaze");
    assert_eq!(rebrand("Mozilla Firefox"), "Ablaze Floorp");
    assert_eq!(rebrand("FirefoxFirefox"), "FloorpFloorp");
    assert_eq!(rebrand("Welcome to Firefox, by Mozilla."), "Welcome to Floorp, by Ablaze.");
}

#[test]
fn other_text_is_kept() {
    assert_eq!(rebrand(""), "");
    assert_eq!(rebrand("firefox mozilla FIREFOX"), "firefox mozilla FIREFOX");
    assert_eq!(rebrand("Firefo Mozill Fire fox"), "Firefo Mozill Fire fox");
    assert_eq!(rebrand("F"), "F");
}

#[test]
fn text_beyond_ascii_is_kept() {
    assert_eq!(rebrand("„Firefox“ – ж日本Mozilla🦊"), "„Floorp“ – ж日本Ablaze🦊");
    assert_eq!(rebrand("🦊"), "🦊");
}

#[test]
fn overlapping_beginnings_do_not_hide_a_name() {
    assert_eq!(rebrand("FirefFirefox"), "FirefFloorp");
    assert_eq!(rebrand("MozMozilla"), "MozAblaze");
    assert_eq!(rebrand("FireMozillafox"), "FireAblazefox");
    assert_eq!(rebrand("MoFirefoxzilla"), "MoFloorpzilla");
}

#[test]
fn no_replaced_name_is_left() {
    for text in ["FirefFirefoxox", "MozMozillailla", "FirefoxMozilla", "FFirefoxirefox"] {
        let shown = rebrand(text);
        assert!(!shown.contains("Firefox"), "{}", shown);
        assert!(!shown.contains("Mozilla"), "{}", shown);
        assert_eq!(rebrand(&shown), shown);
    }
}

#[test]
fn replaces_as_the_standard_library_does() {
    let pieces = ["Firefox", "Mozilla", "Fire", "fox", "Moz", "illa", "F", "é", " "];
    for a in pieces {
        for b in pieces {
            for c in pieces {
                for d in pieces {
                    let text = format!("{}{}{}{}", a, b, c, d);
                    let expected = text.replace("Firefox", "Floorp").replace("Mozilla", "Ablaze");
                    assert_eq!(rebrand(&text), expected);
                }
            }
        }
    }
}
