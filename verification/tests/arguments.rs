//! The arguments and the keys that Fluent gets.

use fluent::types::{FluentNumber, FluentValue};
use fluent::FluentArgs;
use localization::args::{convert_args_to_owned, FluentArgument, L10nArg};
use localization::keys::{convert_keys, FluentL10nKey, L10nKey};
use localization::nsstring::NsCString;
use thin_vec::ThinVec;

fn text_arg(id: &str, text: &str) -> L10nArg {
    L10nArg {
        id: NsCString::from_text(id),
        value: FluentArgument::String(NsCString::from_text(text)),
    }
}

fn number_arg(id: &str, number: f64) -> L10nArg {
    L10nArg {
        id: NsCString::from_text(id),
        value: FluentArgument::Double_(FluentNumber::from(number)),
    }
}

fn entries<'a>(args: &'a FluentArgs) -> Vec<(&'a str, &'a FluentValue<'a>)> {
    args.iter().collect()
}

#[test]
fn no_arguments_are_no_map() {
    assert!(convert_args_to_owned(&[]).is_none());
}

#[test]
fn texts_and_numbers_are_passed_on() {
    let args = convert_args_to_owned(&[number_arg("count", 3.5), text_arg("user", "Ann")]).unwrap();
    assert_eq!(
        entries(&args),
        vec![
            ("count", &FluentValue::from(3.5)),
            ("user", &FluentValue::from("Ann")),
        ]
    );
}

#[test]
fn last_argument_counts() {
    let args = convert_args_to_owned(&[
        text_arg("b", "first"),
        number_arg("a", 1.0),
        text_arg("b", "second"),
        text_arg("a", "third"),
    ])
    .unwrap();
    assert_eq!(
        entries(&args),
        vec![
            ("a", &FluentValue::from("third")),
            ("b", &FluentValue::from("second")),
        ]
    );
}

#[test]
fn names_that_read_alike_are_one() {
    let mut first = text_arg("", "first");
    first.id = NsCString::from_bytes(vec![b'n', 0xff]);
    let mut second = text_arg("", "second");
    second.id = NsCString::from_bytes(vec![b'n', 0xfe]);
    second.value = FluentArgument::String(NsCString::from_bytes(vec![0xff, b'!']));
    let args = convert_args_to_owned(&[first, second]).unwrap();
    assert_eq!(
        entries(&args),
        vec![("n\u{fffd}", &FluentValue::from("\u{fffd}!"))]
    );
}

#[test]
fn text_of_an_argument_keeps_its_names() {
    let args = convert_args_to_owned(&[text_arg("brand", "Firefox")]).unwrap();
    assert_eq!(entries(&args), vec![("brand", &FluentValue::from("Firefox"))]);
}

#[test]
fn key_is_converted() {
    let mut args = ThinVec::new();
    args.push(number_arg("n", 2.0));
    let key = L10nKey { id: NsCString::from_text("tabs"), args };
    let fluent_key = FluentL10nKey::from(&key);
    assert_eq!(fluent_key.id, "tabs");
    assert_eq!(
        entries(fluent_key.args.as_ref().unwrap()),
        vec![("n", &FluentValue::from(2.0))]
    );
}

#[test]
fn keys_keep_their_order() {
    let mut keys = ThinVec::new();
    for id in ["c", "a", "b", "a"] {
        keys.push(L10nKey { id: NsCString::from_text(id), args: ThinVec::new() });
    }
    let fluent_keys = convert_keys(&keys);
    let ids: Vec<&str> = fluent_keys.iter().map(|key| key.id.as_str()).collect();
    assert_eq!(ids, vec!["c", "a", "b", "a"]);
    assert!(fluent_keys.iter().all(|key| key.args.is_none()));
    assert!(convert_keys(&ThinVec::new()).is_empty());
}
