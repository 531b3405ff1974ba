//! The messages that the browser gets.

use localization::messages::{
    show_optional_message, show_value, FluentL10nAttribute, FluentL10nMessage, L10nAttribute,
    L10nMessage,
};
use localization::nsstring::NsCString;

fn attribute(name: &str, value: &str) -> FluentL10nAttribute {
    FluentL10nAttribute { name: name.to_string(), value: value.to_string() }
}

#[test]
fn value_is_shown_under_new_names() {
    assert_eq!(
        show_value(&Some("About Mozilla Firefox".to_string())),
        NsCString::from_text("About Ablaze Floorp")
    );
    assert_eq!(show_value(&Some(String::new())), NsCString::new());
    assert_eq!(show_value(&None), NsCString::void());
}

#[test]
fn attribute_is_converted_as_it_is() {
    let converted = L10nAttribute::from(attribute("label", "Firefox"));
    assert_eq!(converted.name, NsCString::from_text("label"));
    assert_eq!(converted.value, NsCString::from_text("Firefox"));
}

#[test]
fn message_shows_new_names_but_keeps_attribute_names() {
    let message = L10nMessage::from(FluentL10nMessage {
        value: Some("Firefox".to_string()),
        attributes: vec![
            attribute("Firefox", "Quit Firefox"),
            attribute("accesskey", "Q"),
            attribute("title", "Mozilla"),
        ],
    });
    assert_eq!(message.value, NsCString::from_text("Floorp"));
    let shown: Vec<(String, String)> = message
        .attributes
        .iter()
        .map(|attribute| (attribute.name.to_utf8(), attribute.value.to_utf8()))
        .collect();
    assert_eq!(
        shown,
        vec![
            ("Firefox".to_string(), "Quit Floorp".to_string()),
            ("accesskey".to_string(), "Q".to_string()),
            ("title".to_string(), "Ablaze".to_string()),
        ]
    );
}

#[test]
fn message_without_value_is_void() {
    let message = L10nMessage::from(FluentL10nMessage {
        value: None,
        attributes: vec![attribute("label", "New Tab")],
    });
    assert!(message.value.is_void());
    assert_eq!(message.attributes.len(), 1);
}

#[test]
fn default_message_is_empty_but_not_void() {
    let message = L10nMessage::default();
    assert_eq!(message.value, NsCString::new());
    assert!(!message.value.is_void());
    assert!(message.attributes.is_empty());
}

#[test]
fn missing_message_is_marked() {
    let missing = show_optional_message(None);
    assert!(!missing.is_present);
    assert_eq!(missing.message.value, NsCString::new());
    assert!(missing.message.attributes.is_empty());

    let bare = show_optional_message(Some(FluentL10nMessage { value: None, attributes: vec![] }));
    assert!(bare.is_present);
    assert!(bare.message.value.is_void());
}
