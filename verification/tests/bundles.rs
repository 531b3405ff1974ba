//! Requests that real bundles of messages answer.

use fluent::{FluentBundle, FluentResource};
use fluent_fallback::generator::{BundleGenerator, FluentBundleResult};
use fluent_fallback::types::{L10nKey as BundleKey, L10nMessage as BundleMessage, ResourceId};
use fluent_fallback::{Localization, LocalizationError};
use fluent::types::FluentNumber;
use futures::executor::block_on;
use localization::args::{FluentArgument, L10nArg};
use localization::errors::{
    debug_assert_variables_exist, describe_error, describe_errors,
};
use localization::keys::{FluentL10nKey, L10nKey};
use localization::localization::{localization_new, Answer, LocalizationRc};
use localization::messages::{FluentL10nAttribute, FluentL10nMessage};
use localization::nsstring::NsCString;
use rustc_hash::FxHashSet;
use std::borrow::Cow;
use thin_vec::ThinVec;
use unic_langid::LanguageIdentifier;

const FTL: &str = "
about = About Firefox by { $vendor }
quit =
    .label = Quit Firefox
    .accesskey = Q
tabs = { $count ->
    [one] One tab
   *[other] { $count } tabs
}
";

type Locales = <Vec<LanguageIdentifier> as IntoIterator>::IntoIter;
type Bundles = std::vec::IntoIter<FluentBundleResult<FluentResource>>;

struct Generator;

impl BundleGenerator for Generator {
    type Resource = FluentResource;
    type LocalesIter = Locales;
    type Iter = Bundles;
    type Stream = futures::stream::Iter<Bundles>;

    fn bundles_iter(&self, locales: Locales, _: FxHashSet<ResourceId>) -> Bundles {
        let mut bundle = FluentBundle::new(locales.collect());
        bundle.set_use_isolating(false);
        bundle.add_resource(FluentResource::try_new(FTL.to_string()).unwrap()).unwrap();
        vec![Ok(bundle)].into_iter()
    }

    fn bundles_stream(
        &self,
        locales: Locales,
        res_ids: FxHashSet<ResourceId>,
    ) -> futures::stream::Iter<Bundles> {
        futures::stream::iter(self.bundles_iter(locales, res_ids))
    }
}

fn localization(sync: bool) -> Localization<Generator, Vec<LanguageIdentifier>> {
    let locales: Vec<LanguageIdentifier> = vec!["en-US".parse().unwrap()];
    Localization::with_env(vec!["main.ftl".into()], sync, locales, Generator)
}

fn string(text: &str) -> NsCString {
    NsCString::from_text(text)
}

fn vendor() -> ThinVec<L10nArg> {
    let mut args = ThinVec::new();
    args.push(L10nArg { id: string("vendor"), value: FluentArgument::String(string("Mozilla")) });
    args
}

fn count(number: f64) -> ThinVec<L10nArg> {
    let mut args = ThinVec::new();
    args.push(L10nArg {
        id: string("count"),
        value: FluentArgument::Double_(FluentNumber::from(number)),
    });
    args
}

fn bundle_keys(keys: Vec<FluentL10nKey>) -> Vec<BundleKey<'static>> {
    keys.into_iter().map(|key| BundleKey { id: key.id.into(), args: key.args }).collect()
}

fn texts(values: Vec<Option<Cow<str>>>) -> Vec<Option<String>> {
    values.into_iter().map(|value| value.map(Cow::into_owned)).collect()
}

fn message(message: BundleMessage) -> FluentL10nMessage {
    FluentL10nMessage {
        value: message.value.map(Cow::into_owned),
        attributes: message
            .attributes
            .into_iter()
            .map(|attribute| FluentL10nAttribute {
                name: attribute.name.into_owned(),
                value: attribute.value.into_owned(),
            })
            .collect(),
    }
}

fn answer<T>(outcome: Result<T, LocalizationError>, errors: Vec<LocalizationError>) -> Answer<T> {
    Answer {
        outcome: outcome.map_err(|error| describe_error(&error)),
        errors: describe_errors(&errors),
    }
}

fn value_sync(
    sync: bool,
    id: &str,
    args: &ThinVec<L10nArg>,
) -> (bool, NsCString, ThinVec<NsCString>) {
    let localization = localization(sync);
    let mut value = string("before");
    let mut list = ThinVec::new();
    let done = localization_new(sync).format_value_sync(
        &string(id),
        args,
        |key| {
            let mut errors = vec![];
            let outcome = localization
                .bundles()
                .format_value_sync(&key.id, key.args.as_ref(), &mut errors)
                .map(|value| value.map(Cow::into_owned));
            answer(outcome, errors)
        },
        &mut value,
        &mut list,
    );
    (done, value, list)
}

#[test]
fn value_is_formatted_and_rebranded() {
    let (done, value, errors) = value_sync(true, "about", &vendor());
    assert!(done);
    assert_eq!(value, string("About Floorp by Ablaze"));
    assert!(errors.is_empty());
}

#[test]
fn numbers_reach_the_bundles() {
    assert_eq!(value_sync(true, "tabs", &count(1.0)).1, string("One tab"));
    assert_eq!(value_sync(true, "tabs", &count(2.5)).1, string("2.5 tabs"));
}

#[test]
fn missing_message_is_void_with_errors() {
    let (done, value, errors) = value_sync(true, "nothing", &ThinVec::new());
    assert!(done);
    assert!(value.is_void());
    let texts: Vec<String> = errors.iter().map(|error| error.to_utf8()).collect();
    assert_eq!(
        texts,
        vec![
            "[fluent] Missing message in locale en-US: nothing",
            "[fluent] Couldn't find a message: nothing",
        ]
    );
}

#[test]
fn sync_request_of_async_bundles_is_refused() {
    let (done, value, errors) = value_sync(false, "about", &vendor());
    assert!(!done);
    assert_eq!(value, string("before"));
    assert!(errors.is_empty());
}

#[test]
fn unknown_variable_is_found() {
    let localization = localization(true);
    let mut errors = vec![];
    let value = localization.bundles().format_value_sync("about", None, &mut errors).unwrap();
    assert_eq!(value, Some("About Firefox by {$vendor}".into()));
    let report = debug_assert_variables_exist(
        &describe_errors(&errors),
        &[string("about")],
        |id| id.to_utf8(),
    )
    .unwrap();
    assert_eq!(report.message, "Resolver error: Unknown variable: $vendor");
    assert_eq!(
        report.lines[0],
        "Fluent error, the argument \"$vendor\" was not provided a value."
    );
    assert_eq!(report.lines[2], "  \"about\"");
}

#[test]
fn values_and_messages_are_alike_sync_and_async() {
    let mut keys = ThinVec::new();
    keys.push(L10nKey { id: string("quit"), args: ThinVec::new() });
    keys.push(L10nKey { id: string("about"), args: vendor() });
    keys.push(L10nKey { id: string("nothing"), args: ThinVec::new() });

    for sync in [true, false] {
        let localization = localization(sync);
        let bundles = localization.bundles();

        let (asked, pending) = LocalizationRc::format_values(&keys);
        let asked = bundle_keys(asked);
        let mut errors = vec![];
        let values = block_on(bundles.format_values(&asked, &mut errors));
        let (values, _) = pending.finish(&texts(values), &describe_errors(&errors));
        assert!(values[0].is_void());
        assert_eq!(values[1], string("About Floorp by Ablaze"));
        assert!(values[2].is_void());

        let (asked, pending) = LocalizationRc::format_messages(&keys);
        let asked = bundle_keys(asked);
        let mut errors = vec![];
        let answers = block_on(bundles.format_messages(&asked, &mut errors));
        let (messages, _) = pending.finish(
            answers.into_iter().map(|answer| answer.map(message)).collect(),
            &describe_errors(&errors),
        );
        assert_eq!(messages.len(), 3);
        assert!(messages[0].is_present);
        assert!(messages[0].message.value.is_void());
        assert_eq!(messages[0].message.attributes[0].value, string("Quit Floorp"));
        assert_eq!(messages[0].message.attributes[1].name, string("accesskey"));
        assert_eq!(messages[1].message.value, string("About Floorp by Ablaze"));
        assert!(!messages[2].is_present);

        let mut sync_values = ThinVec::new();
        let mut sync_errors = ThinVec::new();
        let done = localization_new(sync).format_values_sync(
            &keys,
            |asked| {
                let asked = bundle_keys(asked);
                let mut errors = vec![];
                let outcome = bundles.format_values_sync(&asked, &mut errors).map(texts);
                answer(outcome, errors)
            },
            &mut sync_values,
            &mut sync_errors,
        );
        assert_eq!(done, sync);
        if sync {
            assert_eq!(sync_values, values);
        } else {
            assert!(sync_values.is_empty());
            assert!(sync_errors.is_empty());
        }
    }
}
