//! The errors that Fluent reports.

use fluent::resolver::errors::ReferenceKind;
use fluent::resolver::ResolverError;
use fluent::{FluentBundle, FluentError, FluentResource};
use fluent_fallback::LocalizationError;
use localization::errors::{
    debug_assert_variables_exist, describe_error, describe_errors, L10nError, ResolverFailure,
};

fn unknown(id: &str) -> FluentError {
    FluentError::ResolverError(ResolverError::Reference(ReferenceKind::Variable {
        id: id.to_string(),
    }))
}

fn resolver(errors: Vec<FluentError>) -> LocalizationError {
    LocalizationError::Resolver {
        id: "message".to_string(),
        locale: "en-US".parse().unwrap(),
        errors,
    }
}

fn failure(text: &str, unknown_variable: Option<&str>) -> ResolverFailure {
    ResolverFailure {
        text: text.to_string(),
        unknown_variable: unknown_variable.map(|id| id.to_string()),
    }
}

#[test]
fn error_is_described_in_its_own_words() {
    let error = LocalizationError::MissingMessage { id: "menu".to_string(), locale: None };
    let described = describe_error(&error);
    assert_eq!(described.text, "[fluent] Couldn't find a message: menu");
    assert!(described.failures.is_empty());

    let refused = describe_error(&LocalizationError::SyncRequestInAsyncMode);
    assert_eq!(refused.text, "Triggered synchronous format while in async mode");
    assert!(refused.failures.is_empty());
}

#[test]
fn failures_behind_an_error_are_described() {
    let described = describe_error(&resolver(vec![
        FluentError::ResolverError(ResolverError::Cyclic),
        unknown("user"),
        FluentError::ResolverError(ResolverError::Reference(ReferenceKind::Function {
            id: "DATETIME".to_string(),
        })),
    ]));
    assert_eq!(
        described.text,
        "[fluent][resolver] errors in en-US/message: \
         Resolver error: Cyclical dependency detected, \
         Resolver error: Unknown variable: $user, \
         Resolver error: Unknown function: DATETIME()"
    );
    let failures: Vec<(&str, Option<&str>)> = described
        .failures
        .iter()
        .map(|failure| (failure.text.as_str(), failure.unknown_variable.as_deref()))
        .collect();
    assert_eq!(
        failures,
        vec![
            ("Resolver error: Cyclical dependency detected", None),
            ("Resolver error: Unknown variable: $user", Some("user")),
            ("Resolver error: Unknown function: DATETIME()", None),
        ]
    );
}

#[test]
fn unknown_variable_outside_the_resolver_is_no_failure() {
    let described = describe_error(&LocalizationError::Bundle { error: unknown("user") });
    assert_eq!(
        described.text,
        "[fluent][bundle] error: Resolver error: Unknown variable: $user"
    );
    assert!(described.failures.is_empty());
    let report = debug_assert_variables_exist(&[described], &["menu"], |key| key.to_string());
    assert!(report.is_none());
}

#[test]
fn errors_keep_their_order() {
    let described = describe_errors(&vec![
        LocalizationError::MissingValue { id: "b".to_string(), locale: None },
        resolver(vec![]),
        LocalizationError::MissingValue { id: "a".to_string(), locale: None },
    ]);
    let texts: Vec<&str> = described.iter().map(|error| error.text.as_str()).collect();
    assert_eq!(
        texts,
        vec![
            "[fluent] Couldn't find a message with value: b",
            "[fluent][resolver] errors in en-US/message: ",
            "[fluent] Couldn't find a message with value: a",
        ]
    );
}

#[test]
fn nothing_is_reported_without_an_unknown_variable() {
    let errors = [
        L10nError { text: "one".to_string(), failures: vec![] },
        L10nError { text: "two".to_string(), failures: vec![failure("No default", None)] },
    ];
    assert!(debug_assert_variables_exist(&errors, &["k"], |key| key.to_string()).is_none());
    let none: [L10nError; 0] = [];
    assert!(debug_assert_variables_exist(&none, &["k"], |key| key.to_string()).is_none());
}

#[test]
fn first_unknown_variable_is_reported() {
    let errors = [
        L10nError { text: "one".to_string(), failures: vec![failure("No default", None)] },
        L10nError {
            text: "two".to_string(),
            failures: vec![
                failure("No default", None),
                failure("Unknown variable: $first", Some("first")),
                failure("Unknown variable: $second", Some("second")),
            ],
        },
        L10nError {
            text: "three".to_string(),
            failures: vec![failure("Unknown variable: $third", Some("third"))],
        },
    ];
    let report =
        debug_assert_variables_exist(&errors, &["menu", "say \"hi\""], |key| key.to_string())
            .unwrap();
    assert_eq!(report.message, "Unknown variable: $first");
    assert_eq!(
        report.lines,
        vec![
            "Fluent error, the argument \"$first\" was not provided a value.",
            "This error happened while formatting the following messages:",
            "  \"menu\"",
            "  \"say \\\"hi\\\"\"",
        ]
    );
}

fn overriding() -> FluentError {
    let resource = || FluentResource::try_new("a = A".to_string()).unwrap();
    let mut bundle: FluentBundle<FluentResource> = FluentBundle::new(vec![]);
    bundle.add_resource(resource()).unwrap();
    bundle.add_resource(resource()).unwrap_err().remove(0)
}

#[test]
fn only_unknown_variables_are_missing_arguments() {
    let reference = |kind| FluentError::ResolverError(ResolverError::Reference(kind));
    let described = describe_error(&resolver(vec![
        overriding(),
        reference(ReferenceKind::Function { id: "b".to_string() }),
        reference(ReferenceKind::Message { id: "c".to_string(), attribute: None }),
        reference(ReferenceKind::Term { id: "d".to_string(), attribute: Some("e".to_string()) }),
        FluentError::ResolverError(ResolverError::NoValue("f".to_string())),
        FluentError::ResolverError(ResolverError::MissingDefault),
        FluentError::ResolverError(ResolverError::Cyclic),
        FluentError::ResolverError(ResolverError::TooManyPlaceables),
    ]));
    assert_eq!(described.failures.len(), 8);
    assert!(described.failures.iter().all(|failure| failure.unknown_variable.is_none()));
}
