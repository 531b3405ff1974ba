//! Requests: what the bundles are asked for, and what becomes of their answer.

use localization::args::{FluentArgument, L10nArg};
use localization::errors::{L10nError, ResolverFailure};
use localization::keys::L10nKey;
use localization::localization::{
    deliver_messages, deliver_value, deliver_values, localization_new, missing_argument, Answer,
    LocalizationRc,
};
use localization::messages::{FluentL10nAttribute, FluentL10nMessage};
use localization::nsstring::NsCString;
use thin_vec::ThinVec;

fn error(text: &str) -> L10nError {
    L10nError { text: text.to_string(), failures: vec![] }
}

fn strings(list: &[&str]) -> ThinVec<NsCString> {
    let mut strings = ThinVec::new();
    for text in list {
        strings.push(NsCString::from_text(text));
    }
    strings
}

fn keys(ids: &[&str]) -> ThinVec<L10nKey> {
    let mut keys = ThinVec::new();
    for id in ids {
        keys.push(L10nKey { id: NsCString::from_text(id), args: ThinVec::new() });
    }
    keys
}

fn message(value: Option<&str>) -> Option<FluentL10nMessage> {
    Some(FluentL10nMessage { value: value.map(|text| text.to_string()), attributes: vec![] })
}

#[test]
fn value_is_delivered() {
    let mut value = NsCString::from_text("old");
    let mut errors = strings(&["before"]);
    let answer = Answer {
        outcome: Ok(Some("Quit Firefox".to_string())),
        errors: vec![error("one in Firefox"), error("two")],
    };
    assert!(deliver_value(&answer, &mut value, &mut errors));
    assert_eq!(value, NsCString::from_text("Quit Floorp"));
    assert_eq!(errors, strings(&["before", "one in Firefox", "two"]));
}

#[test]
fn missing_value_is_delivered_as_void() {
    let mut value = NsCString::from_text("old");
    let mut errors = ThinVec::new();
    let answer = Answer { outcome: Ok(None), errors: vec![] };
    assert!(deliver_value(&answer, &mut value, &mut errors));
    assert!(value.is_void());
    assert!(errors.is_empty());
}

#[test]
fn refused_request_changes_nothing() {
    let mut value = NsCString::from_text("old");
    let mut values = strings(&["old"]);
    let mut messages = ThinVec::new();
    let mut errors = strings(&["before"]);
    let answer = Answer { outcome: Err(error("refused")), errors: vec![error("lost")] };
    assert!(!deliver_value(&answer, &mut value, &mut errors));
    let answer = Answer { outcome: Err(error("refused")), errors: vec![error("lost")] };
    assert!(!deliver_values(&answer, &mut values, &mut errors));
    let answer = Answer { outcome: Err(error("refused")), errors: vec![error("lost")] };
    assert!(!deliver_messages(answer, &mut messages, &mut errors));
    assert_eq!(value, NsCString::from_text("old"));
    assert_eq!(values, strings(&["old"]));
    assert!(messages.is_empty());
    assert_eq!(errors, strings(&["before"]));
}

#[test]
fn values_are_added_in_order() {
    let mut values = strings(&["old"]);
    let mut errors = ThinVec::new();
    let answer = Answer {
        outcome: Ok(vec![Some("Mozilla".to_string()), None, Some(String::new())]),
        errors: vec![error("one")],
    };
    assert!(deliver_values(&answer, &mut values, &mut errors));
    let mut expected = strings(&["old", "Ablaze"]);
    expected.push(NsCString::void());
    expected.push(NsCString::new());
    assert_eq!(values, expected);
    assert_eq!(errors, strings(&["one"]));
}

#[test]
fn value_request_passes_identifier_and_arguments() {
    let handle = localization_new(true);
    let mut args = ThinVec::new();
    args.push(L10nArg {
        id: NsCString::from_text("user"),
        value: FluentArgument::String(NsCString::from_text("Ann")),
    });
    let mut value = NsCString::new();
    let mut errors = ThinVec::new();
    let done = handle.format_value_sync(
        &NsCString::from_bytes(vec![b'h', b'i', 0xff]),
        &args,
        |key| {
            assert_eq!(key.id, "hi\u{fffd}");
            let args = key.args.as_ref().unwrap();
            let names: Vec<&str> = args.iter().map(|(name, _)| name).collect();
            assert_eq!(names, vec!["user"]);
            Answer { outcome: Ok(Some("Hi from Firefox".to_string())), errors: vec![] }
        },
        &mut value,
        &mut errors,
    );
    assert!(done);
    assert_eq!(value, NsCString::from_text("Hi from Floorp"));

    let pending = LocalizationRc::format_value(&NsCString::from_text("hi"), &args);
    assert_eq!(pending.key().id, "hi");
    let (value, errors) =
        pending.finish(&Some("Hi from Firefox".to_string()), &vec![error("late")]);
    assert_eq!(value, NsCString::from_text("Hi from Floorp"));
    assert_eq!(errors, strings(&["late"]));
    assert!(pending.finish(&None, &vec![]).0.is_void());
}

#[test]
fn sync_and_async_requests_agree() {
    let handle = localization_new(true);
    let keys = keys(&["a", "b"]);
    let answers = || vec![Some("About Firefox".to_string()), None];

    let mut values = ThinVec::new();
    let mut errors = ThinVec::new();
    let done = handle.format_values_sync(
        &keys,
        |asked| {
            assert_eq!(asked.len(), 2);
            assert_eq!(asked[1].id, "b");
            Answer { outcome: Ok(answers()), errors: vec![error("e")] }
        },
        &mut values,
        &mut errors,
    );
    assert!(done);

    let (asked, pending) = LocalizationRc::format_values(&keys);
    assert_eq!(asked.len(), 2);
    assert_eq!(asked[0].id, "a");
    let (late_values, late_errors) = pending.finish(&answers(), &vec![error("e")]);
    assert_eq!(values, late_values);
    assert_eq!(errors, late_errors);
    assert_eq!(values[0], NsCString::from_text("About Floorp"));
    assert!(values[1].is_void());
}

#[test]
fn messages_are_delivered_one_for_each_key() {
    let handle = localization_new(true);
    let keys = keys(&["a", "b", "c"]);
    let answers = || {
        vec![
            message(Some("Firefox")),
            None,
            Some(FluentL10nMessage {
                value: None,
                attributes: vec![FluentL10nAttribute {
                    name: "label".to_string(),
                    value: "Mozilla".to_string(),
                }],
            }),
        ]
    };
    let mut messages = ThinVec::new();
    let mut errors = ThinVec::new();
    let done = handle.format_messages_sync(
        &keys,
        |asked| {
            assert_eq!(asked.len(), 3);
            Answer { outcome: Ok(answers()), errors: vec![error("e")] }
        },
        &mut messages,
        &mut errors,
    );
    assert!(done);
    let (asked, pending) = LocalizationRc::format_messages(&keys);
    assert_eq!(asked[2].id, "c");
    let (late_messages, late_errors) = pending.finish(answers(), &vec![error("e")]);
    assert_eq!(errors, late_errors);
    for list in [&messages, &late_messages] {
        assert_eq!(list.len(), keys.len());
        assert!(list[0].is_present);
        assert_eq!(list[0].message.value, NsCString::from_text("Floorp"));
        assert!(!list[1].is_present);
        assert_eq!(list[1].message.value, NsCString::new());
        assert!(list[2].is_present);
        assert!(list[2].message.value.is_void());
        assert_eq!(list[2].message.attributes[0].name, NsCString::from_text("label"));
        assert_eq!(list[2].message.attributes[0].value, NsCString::from_text("Ablaze"));
    }
}

fn unresolved(variable: &str) -> L10nError {
    L10nError {
        text: "unresolved".to_string(),
        failures: vec![ResolverFailure {
            text: format!("Unknown variable: ${}", variable),
            unknown_variable: Some(variable.to_string()),
        }],
    }
}

#[test]
fn missing_argument_is_found_in_an_answer() {
    let answer: Answer<Option<String>> = Answer {
        outcome: Ok(None),
        errors: vec![error("other"), unresolved("user"), unresolved("count")],
    };
    let report = missing_argument(&answer, &["hello".to_string(), "tabs".to_string()]).unwrap();
    assert_eq!(report.message, "Unknown variable: $user");
    assert_eq!(
        report.lines,
        vec![
            "Fluent error, the argument \"$user\" was not provided a value.",
            "This error happened while formatting the following messages:",
            "  \"hello\"",
            "  \"tabs\"",
        ]
    );
}

#[test]
fn refused_request_reports_no_missing_argument() {
    let answer: Answer<Option<String>> =
        Answer { outcome: Err(error("refused")), errors: vec![unresolved("user")] };
    assert!(missing_argument(&answer, &["hello".to_string()]).is_none());
    let answer: Answer<Option<String>> =
        Answer { outcome: Ok(None), errors: vec![error("other")] };
    assert!(missing_argument(&answer, &["hello".to_string()]).is_none());
}

#[test]
fn no_sync_request_is_answered_after_set_async() {
    let mut handle = localization_new(true);
    handle.set_async();
    let mut value = NsCString::from_text("old");
    let mut values = strings(&["old"]);
    let mut messages = ThinVec::new();
    let mut errors = strings(&["before"]);
    assert!(!handle.format_value_sync(
        &NsCString::from_text("a"),
        &ThinVec::new(),
        |_| Answer { outcome: Err(error("refused")), errors: vec![error("lost")] },
        &mut value,
        &mut errors,
    ));
    assert!(!handle.format_values_sync(
        &keys(&["a"]),
        |_| Answer { outcome: Err(error("refused")), errors: vec![error("lost")] },
        &mut values,
        &mut errors,
    ));
    assert!(!handle.format_messages_sync(
        &keys(&["a"]),
        |_| Answer { outcome: Err(error("refused")), errors: vec![error("lost")] },
        &mut messages,
        &mut errors,
    ));
    assert_eq!(value, NsCString::from_text("old"));
    assert_eq!(values, strings(&["old"]));
    assert!(messages.is_empty());
    assert_eq!(errors, strings(&["before"]));
}
