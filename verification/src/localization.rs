//! The handle through which the browser asks for localized messages.
//!
//! Bundles of messages are loaded and formatted outside the library. A synchronous request is
//! given the bundles as a function and answers at once. An asynchronous one is split in two: what
//! is asked of the bundles, and what the browser gets once they have answered.

use crate::args::{convert_args_to_owned, L10nArg};
use crate::errors::{debug_assert_variables_exist, push_errors, L10nError, MissingArgument};
use crate::keys::{convert_keys, FluentL10nKey, L10nKey};
use crate::lists::{arg_slice, new_messages, new_strings, push_message, push_string};
use crate::locales::parse_locales;
use crate::messages::{show_optional_message, show_value, FluentL10nMessage, OptionalL10nMessage};
use crate::nsstring::NsCString;
use crate::rebrand::rebrand;
use thin_vec::ThinVec;
use unic_langid::LanguageIdentifier;
use vstd::prelude::*;

#[allow(unused_imports)]
use crate::args::{
    arguments, converted_args, names_of_the_list_reach_fluent,
    values_of_the_list_reach_fluent, ArgumentView, FluentArgument,
};
#[allow(unused_imports)]
use crate::errors::{
    argument_line, debug_text, error_strings, errors_are_shown_in_place, first_unknown_at,
    is_key_line, reports, unknown_at,
};
#[allow(unused_imports)]
use crate::keys::{asks_for, KeyView};
#[allow(unused_imports)]
use crate::lists::{args_in, keys_in, messages_in, strings_in};
#[allow(unused_imports)]
use crate::locales::{language_identifier, named_locales};
#[allow(unused_imports)]
use crate::messages::{
    lists_are_shown_in_full_length, messages_are_shown_in_place, shown_message, shown_messages,
    shown_optional_message, shown_value, shown_values, value_is_shown_whole,
    values_are_shown_in_place, OptionalMessageView,
};
#[allow(unused_imports)]
use crate::nsstring::{bytes_of, text_of};
#[allow(unused_imports)]
use crate::rebrand::rebranded;
#[allow(unused_imports)]
use vstd::utf8::encode_utf8;

verus! {

/// What the bundles answer to a synchronous request: the result, unless they can be asked
/// asynchronously only, and the errors that came up.
#[derive(Debug)]
pub struct Answer<T> {
    pub outcome: Result<T, L10nError>,
    pub errors: Vec<L10nError>,
}

/// A handle for localization.
#[derive(Debug)]
pub struct LocalizationRc {
    sync: bool,
    locales: Option<Vec<LanguageIdentifier>>,
    refcnt: usize,
}

/// What a handle is.
pub struct LocalizationView {
    /// Messages may be asked for synchronously.
    pub sync: bool,
    /// The locales to localize to, where they are not those of the browser.
    pub locales: Option<Seq<LanguageIdentifier>>,
    /// How many owners the handle has.
    pub refcnt: nat,
}

impl View for LocalizationRc {
    type V = LocalizationView;

    closed spec fn view(&self) -> LocalizationView {
        LocalizationView {
            sync: self.sync,
            locales: match self.locales {
                Some(locales) => Some(locales@),
                None => None,
            },
            refcnt: self.refcnt as nat,
        }
    }
}

/// A handle as it is made.
pub open spec fn new_handle(
    sync: bool,
    locales: Option<Seq<LanguageIdentifier>>,
) -> LocalizationView {
    LocalizationView { sync, locales, refcnt: 0 }
}

/// A handle that has given up synchronous requests.
pub open spec fn made_async(handle: LocalizationView) -> LocalizationView {
    LocalizationView { sync: false, ..handle }
}

/// A handle with one more owner.
pub open spec fn with_owner(handle: LocalizationView) -> LocalizationView {
    LocalizationView { refcnt: handle.refcnt + 1, ..handle }
}

/// A handle with one owner less.
pub open spec fn without_owner(handle: LocalizationView) -> LocalizationView {
    LocalizationView { refcnt: (handle.refcnt - 1) as nat, ..handle }
}

/// The locales that a handle can be made for: those of the browser where there is no list, and
/// else those that the list names, if each of its strings names one.
pub open spec fn requested_locales(locales: Option<&ThinVec<NsCString>>) -> Option<
    Option<Seq<LanguageIdentifier>>,
> {
    match locales {
        Some(names) => match named_locales(strings_in(*names)) {
            Some(locales) => Some(Some(locales)),
            None => None,
        },
        None => Some(None),
    }
}

/// What is asked of the bundles for one value.
pub open spec fn value_key(id: NsCString, args: ThinVec<L10nArg>) -> KeyView {
    KeyView { id: id.text(), args: converted_args(args_in(args)) }
}

/// What a synchronous request for a value does with the answer of the bundles: it hands over the
/// value and adds the errors, or it is refused and leaves everything as it was.
pub open spec fn value_delivered(
    answer: Answer<Option<String>>,
    before: (Option<Seq<u8>>, Seq<Option<Seq<u8>>>),
    after: (Option<Seq<u8>>, Seq<Option<Seq<u8>>>),
    done: bool,
) -> bool {
    match answer.outcome {
        Ok(value) => done && after == (
            shown_value(value),
            before.1 + error_strings(answer.errors@),
        ),
        Err(_) => !done && after == before,
    }
}

/// What a synchronous request for values does with the answer of the bundles: it adds the values
/// and the errors, or it is refused and leaves everything as it was.
pub open spec fn values_delivered(
    answer: Answer<Vec<Option<String>>>,
    before: (Seq<Option<Seq<u8>>>, Seq<Option<Seq<u8>>>),
    after: (Seq<Option<Seq<u8>>>, Seq<Option<Seq<u8>>>),
    done: bool,
) -> bool {
    match answer.outcome {
        Ok(values) => done && after == (
            before.0 + shown_values(values@),
            before.1 + error_strings(answer.errors@),
        ),
        Err(_) => !done && after == before,
    }
}

/// What a synchronous request for messages does with the answer of the bundles: it adds the
/// messages and the errors, or it is refused and leaves everything as it was.
pub open spec fn messages_delivered(
    answer: Answer<Vec<Option<FluentL10nMessage>>>,
    before: (Seq<OptionalMessageView>, Seq<Option<Seq<u8>>>),
    after: (Seq<OptionalMessageView>, Seq<Option<Seq<u8>>>),
    done: bool,
) -> bool {
    match answer.outcome {
        Ok(messages) => done && after == (
            before.0 + shown_messages(messages@),
            before.1 + error_strings(answer.errors@),
        ),
        Err(_) => !done && after == before,
    }
}

/// Adds what the browser gets for values to a list.
fn push_values(list: &mut ThinVec<NsCString>, values: &Vec<Option<String>>)
    ensures
        strings_in(*final(list)) == strings_in(*old(list)) + shown_values(values@),
{
    let ghost before = strings_in(*list);
    let ghost added = shown_values(values@);
    assert(before + added.take(0) =~= before);
    let mut i: usize = 0;
    while i < values.len()
        invariant
            i <= values@.len(),
            added == shown_values(values@),
            strings_in(*list) == before + added.take(i as int),
        decreases values@.len() - i,
    {
        push_string(list, show_value(&values[i]));
        i += 1;
        assert(before + added.take(i as int) =~= (before + added.take(i - 1)).push(added[i - 1]));
    }
    assert(added.take(i as int) =~= added);
}

/// Adds what the browser gets for messages to a list.
fn push_messages(list: &mut ThinVec<OptionalL10nMessage>, messages: Vec<Option<FluentL10nMessage>>)
    ensures
        messages_in(*final(list)) == messages_in(*old(list)) + shown_messages(messages@),
{
    let ghost before = messages_in(*list);
    let ghost added = shown_messages(messages@);
    assert(before + added.take(0) =~= before);
    for message in it: messages
        invariant
            added == shown_messages(it.seq()),
            messages_in(*list) == before + added.take(it.index() as int),
    {
        let ghost i = it.index() as int;
        assert(added[i] == shown_optional_message(message));
        push_message(list, show_optional_message(message));
        assert(before + added.take(i + 1) =~= (before + added.take(i)).push(added[i]));
    }
    assert(added.take(added.len() as int) =~= added);
}

/// The strings that the browser gets for errors.
fn error_list(errors: &Vec<L10nError>) -> (list: ThinVec<NsCString>)
    ensures
        strings_in(list) == error_strings(errors@),
{
    let mut list = new_strings();
    push_errors(&mut list, errors);
    assert(strings_in(list) =~= error_strings(errors@));
    list
}

/// The identifier of a message, by which a report lists it.
fn id_text(id: &String) -> (text: String)
    ensures
        text@ == id@,
{
    id.clone()
}

/// The report is about the failure `j` of the error `i`: it names the variable, lists the messages
/// that were asked for, and ends with the words of the failure.
pub open spec fn reports_messages(
    report: MissingArgument,
    errors: Seq<L10nError>,
    i: int,
    j: int,
    ids: Seq<String>,
) -> bool {
    &&& report.message@ == errors[i].failures@[j].text@
    &&& report.lines@.len() == 2 + ids.len()
    &&& report.lines@[0]@ == argument_line(errors[i].failures@[j].unknown_variable->0@)
    &&& report.lines@[1]@ == "This error happened while formatting the following messages:"@
    &&& forall|k: int|
        0 <= k < ids.len() ==> (#[trigger] report.lines@[2 + k])@ == "  "@ + debug_text(ids[k]@)
}

/// Looks for an argument that a message needs and that was not given, in the answer to a request
/// for the messages `ids`.
///
/// An answer that refuses the request gives no report, whatever its errors are.
pub fn missing_argument<T>(answer: &Answer<T>, ids: &[String]) -> (report: Option<MissingArgument>)
    ensures
        report is None <==> answer.outcome is Err || forall|i: int, j: int|
            !unknown_at(answer.errors@, i, j),
        report matches Some(report) ==> exists|i: int, j: int| #[trigger]
            first_unknown_at(answer.errors@, i, j) && reports_messages(
                report,
                answer.errors@,
                i,
                j,
                ids@,
            ),
{
    match &answer.outcome {
        Ok(_) => {
            let report = debug_assert_variables_exist(answer.errors.as_slice(), ids, id_text);
            proof {
                if report is Some {
                    let found = report->0;
                    let (i, j) = choose|i: int, j: int| #[trigger]
                        first_unknown_at(answer.errors@, i, j) && reports(
                            found,
                            answer.errors@,
                            i,
                            j,
                            ids@,
                            id_text,
                        );
                    assert forall|k: int| 0 <= k < ids@.len() implies (
                    #[trigger] found.lines@[2 + k])@ == "  "@ + debug_text(ids@[k]@) by {
                        assert(is_key_line(found.lines@[2 + k], &ids@[k], id_text));
                    }
                    assert(reports_messages(found, answer.errors@, i, j, ids@));
                }
            }
            report
        },
        Err(_) => None,
    }
}

/// Hands the answer to a request for a value over to the browser.
pub fn deliver_value(
    answer: &Answer<Option<String>>,
    ret_val: &mut NsCString,
    ret_err: &mut ThinVec<NsCString>,
) -> (done: bool)
    ensures
        value_delivered(
            *answer,
            (old(ret_val)@, strings_in(*old(ret_err))),
            (final(ret_val)@, strings_in(*final(ret_err))),
            done,
        ),
{
    match &answer.outcome {
        Ok(value) => {
            match value {
                Some(text) => ret_val.assign(rebrand(text.as_str()).as_str()),
                None => ret_val.set_void(),
            }
            push_errors(ret_err, &answer.errors);
            true
        },
        Err(_) => false,
    }
}

/// Hands the answer to a request for values over to the browser.
pub fn deliver_values(
    answer: &Answer<Vec<Option<String>>>,
    ret_val: &mut ThinVec<NsCString>,
    ret_err: &mut ThinVec<NsCString>,
) -> (done: bool)
    ensures
        values_delivered(
            *answer,
            (strings_in(*old(ret_val)), strings_in(*old(ret_err))),
            (strings_in(*final(ret_val)), strings_in(*final(ret_err))),
            done,
        ),
{
    match &answer.outcome {
        Ok(values) => {
            push_values(ret_val, values);
            push_errors(ret_err, &answer.errors);
            true
        },
        Err(_) => false,
    }
}

/// Hands the answer to a request for messages over to the browser.
pub fn deliver_messages(
    answer: Answer<Vec<Option<FluentL10nMessage>>>,
    ret_val: &mut ThinVec<OptionalL10nMessage>,
    ret_err: &mut ThinVec<NsCString>,
) -> (done: bool)
    ensures
        messages_delivered(
            answer,
            (messages_in(*old(ret_val)), strings_in(*old(ret_err))),
            (messages_in(*final(ret_val)), strings_in(*final(ret_err))),
            done,
        ),
{
    match answer.outcome {
        Ok(messages) => {
            push_messages(ret_val, messages);
            push_errors(ret_err, &answer.errors);
            true
        },
        Err(_) => false,
    }
}

/// A request for a value that the bundles have yet to answer.
#[derive(Debug)]
pub struct PendingValue {
    key: FluentL10nKey,
}

/// A request for values that the bundles have yet to answer.
#[derive(Debug)]
pub struct PendingValues {
    count: usize,
}

/// A request for messages that the bundles have yet to answer.
#[derive(Debug)]
pub struct PendingMessages {
    count: usize,
}

impl PendingValue {
    /// What the bundles are asked for.
    pub closed spec fn asked(&self) -> FluentL10nKey {
        self.key
    }

    /// What the bundles are asked for.
    pub fn key(&self) -> (key: &FluentL10nKey)
        ensures
            *key == self.asked(),
    {
        &self.key
    }

    /// What the browser gets, once the bundles have answered: the value and the errors.
    pub fn finish(
        &self,
        value: &Option<String>,
        errors: &Vec<L10nError>,
    ) -> (result: (NsCString, ThinVec<NsCString>))
        ensures
            result.0@ == shown_value(*value),
            strings_in(result.1) == error_strings(errors@),
    {
        (show_value(value), error_list(errors))
    }
}

impl PendingValues {
    /// How many values the bundles are asked for.
    pub closed spec fn asked(&self) -> nat {
        self.count as nat
    }

    /// What the browser gets, once the bundles have answered with a value, if there is one, for
    /// each key: the values and the errors.
    pub fn finish(
        &self,
        values: &Vec<Option<String>>,
        errors: &Vec<L10nError>,
    ) -> (result: (ThinVec<NsCString>, ThinVec<NsCString>))
        requires
            values@.len() == self.asked(),
        ensures
            strings_in(result.0) == shown_values(values@),
            strings_in(result.0).len() == self.asked(),
            strings_in(result.1) == error_strings(errors@),
    {
        let mut shown = new_strings();
        push_values(&mut shown, values);
        assert(strings_in(shown) =~= shown_values(values@));
        (shown, error_list(errors))
    }
}

impl PendingMessages {
    /// How many messages the bundles are asked for.
    pub closed spec fn asked(&self) -> nat {
        self.count as nat
    }

    /// What the browser gets, once the bundles have answered with a message, if there is one, for
    /// each key: the messages and the errors.
    pub fn finish(
        &self,
        messages: Vec<Option<FluentL10nMessage>>,
        errors: &Vec<L10nError>,
    ) -> (result: (ThinVec<OptionalL10nMessage>, ThinVec<NsCString>))
        requires
            messages@.len() == self.asked(),
        ensures
            messages_in(result.0) == shown_messages(messages@),
            messages_in(result.0).len() == self.asked(),
            strings_in(result.1) == error_strings(errors@),
    {
        let ghost expected = shown_messages(messages@);
        let mut shown = new_messages();
        push_messages(&mut shown, messages);
        assert(messages_in(shown) =~= expected);
        (shown, error_list(errors))
    }
}

impl LocalizationRc {
    /// A handle that nobody owns yet.
    pub fn new(is_sync: bool, locales: Option<Vec<LanguageIdentifier>>) -> (handle: Self)
        ensures
            handle@ == new_handle(
                is_sync,
                match locales {
                    Some(locales) => Some(locales@),
                    None => None,
                },
            ),
    {
        LocalizationRc { sync: is_sync, locales, refcnt: 0 }
    }

    /// The locales to localize to, where they are not those of the browser.
    pub fn locales(&self) -> (locales: Option<&Vec<LanguageIdentifier>>)
        ensures
            self@.locales == (match locales {
                Some(locales) => Some(locales@),
                None => None,
            }),
    {
        match &self.locales {
            Some(locales) => Some(locales),
            None => None,
        }
    }

    /// How many owners the handle has.
    pub fn refcnt(&self) -> (refcnt: usize)
        ensures
            refcnt == self@.refcnt,
    {
        self.refcnt
    }

    /// Tells whether messages may be asked for synchronously.
    pub fn is_sync(&self) -> (sync: bool)
        ensures
            sync == self@.sync,
    {
        self.sync
    }

    /// Gives up synchronous requests, and tells whether that is a change, which the bundles have
    /// to follow.
    pub fn set_async(&mut self) -> (changed: bool)
        ensures
            changed == old(self)@.sync,
            final(self)@ == made_async(old(self)@),
    {
        if self.is_sync() {
            self.sync = false;
            true
        } else {
            false
        }
    }

    /// Asks the bundles for one value and hands their answer over.
    ///
    /// The bundles are in the mode of the handle: they answer if it is synchronous, and refuse if
    /// it is not. The result tells whether they answered; if not, nothing changes. Else `ret_val`
    /// becomes the value, void where there is none, and the errors are added to `ret_err`.
    pub fn format_value_sync<F: FnOnce(&FluentL10nKey) -> Answer<Option<String>>>(
        &self,
        id: &NsCString,
        args: &ThinVec<L10nArg>,
        bundles: F,
        ret_val: &mut NsCString,
        ret_err: &mut ThinVec<NsCString>,
    ) -> (done: bool)
        requires
            forall|key: FluentL10nKey|
                key@ == value_key(*id, *args) ==> #[trigger] bundles.requires((&key,)),
            forall|key: FluentL10nKey, answer: Answer<Option<String>>|
                key@ == value_key(*id, *args) && #[trigger] bundles.ensures((&key,), answer) ==> (
                answer.outcome is Ok <==> self@.sync),
        ensures
            done == self@.sync,
            !self@.sync ==> final(ret_val)@ == old(ret_val)@ && strings_in(*final(ret_err))
                == strings_in(*old(ret_err)),
            exists|key: FluentL10nKey, answer: Answer<Option<String>>|
                {
                    &&& key@ == value_key(*id, *args)
                    &&& #[trigger] bundles.ensures((&key,), answer)
                    &&& value_delivered(
                        answer,
                        (old(ret_val)@, strings_in(*old(ret_err))),
                        (final(ret_val)@, strings_in(*final(ret_err))),
                        done,
                    )
                },
    {
        let pending = Self::format_value(id, args);
        let answer = bundles(pending.key());
        deliver_value(&answer, ret_val, ret_err)
    }

    /// Asks the bundles for values and hands their answer over.
    ///
    /// The bundles are in the mode of the handle: they answer if it is synchronous, and refuse if
    /// it is not. The result tells whether they answered; if not, nothing changes. Else a string for
    /// each value, void where there is none, is added to `ret_val`, and the errors are added to
    /// `ret_err`.
    pub fn format_values_sync<F: FnOnce(Vec<FluentL10nKey>) -> Answer<Vec<Option<String>>>>(
        &self,
        keys: &ThinVec<L10nKey>,
        bundles: F,
        ret_val: &mut ThinVec<NsCString>,
        ret_err: &mut ThinVec<NsCString>,
    ) -> (done: bool)
        requires
            forall|asked: Vec<FluentL10nKey>|
                asks_for(asked@, keys_in(*keys)) ==> #[trigger] bundles.requires((asked,)),
            forall|asked: Vec<FluentL10nKey>, answer: Answer<Vec<Option<String>>>|
                asks_for(asked@, keys_in(*keys)) && #[trigger] bundles.ensures((asked,), answer)
                    ==> (answer.outcome is Ok <==> self@.sync),
        ensures
            done == self@.sync,
            !self@.sync ==> strings_in(*final(ret_val)) == strings_in(*old(ret_val)) && strings_in(
                *final(ret_err),
            ) == strings_in(*old(ret_err)),
            exists|asked: Vec<FluentL10nKey>, answer: Answer<Vec<Option<String>>>|
                {
                    &&& asks_for(asked@, keys_in(*keys))
                    &&& #[trigger] bundles.ensures((asked,), answer)
                    &&& values_delivered(
                        answer,
                        (strings_in(*old(ret_val)), strings_in(*old(ret_err))),
                        (strings_in(*final(ret_val)), strings_in(*final(ret_err))),
                        done,
                    )
                },
    {
        let asked = convert_keys(keys);
        let answer = bundles(asked);
        deliver_values(&answer, ret_val, ret_err)
    }

    /// Asks the bundles for messages and hands their answer over.
    ///
    /// The bundles are in the mode of the handle: they answer if it is synchronous, and refuse if
    /// it is not. The result tells whether they answered; if not, nothing changes. Else a message for
    /// each key, marked where it is missing, is added to `ret_val`, and the errors are added to
    /// `ret_err`. The bundles answer with as many messages as it takes to have one for each key in
    /// `ret_val`.
    pub fn format_messages_sync<
        F: FnOnce(Vec<FluentL10nKey>) -> Answer<Vec<Option<FluentL10nMessage>>>,
    >(
        &self,
        keys: &ThinVec<L10nKey>,
        bundles: F,
        ret_val: &mut ThinVec<OptionalL10nMessage>,
        ret_err: &mut ThinVec<NsCString>,
    ) -> (done: bool)
        requires
            forall|asked: Vec<FluentL10nKey>|
                asks_for(asked@, keys_in(*keys)) ==> #[trigger] bundles.requires((asked,)),
            forall|asked: Vec<FluentL10nKey>, answer: Answer<Vec<Option<FluentL10nMessage>>>|
                asks_for(asked@, keys_in(*keys)) && #[trigger] bundles.ensures((asked,), answer)
                    && answer.outcome is Ok ==> messages_in(*old(ret_val)).len()
                    + answer.outcome->Ok_0@.len() == keys_in(*keys).len(),
            forall|asked: Vec<FluentL10nKey>, answer: Answer<Vec<Option<FluentL10nMessage>>>|
                asks_for(asked@, keys_in(*keys)) && #[trigger] bundles.ensures((asked,), answer)
                    ==> (answer.outcome is Ok <==> self@.sync),
        ensures
            done == self@.sync,
            !self@.sync ==> messages_in(*final(ret_val)) == messages_in(*old(ret_val))
                && strings_in(*final(ret_err)) == strings_in(*old(ret_err)),
            exists|asked: Vec<FluentL10nKey>, answer: Answer<Vec<Option<FluentL10nMessage>>>|
                {
                    &&& asks_for(asked@, keys_in(*keys))
                    &&& #[trigger] bundles.ensures((asked,), answer)
                    &&& messages_delivered(
                        answer,
                        (messages_in(*old(ret_val)), strings_in(*old(ret_err))),
                        (messages_in(*final(ret_val)), strings_in(*final(ret_err))),
                        done,
                    )
                },
            done ==> messages_in(*final(ret_val)).len() == keys_in(*keys).len(),
    {
        let asked = convert_keys(keys);
        let answer = bundles(asked);
        deliver_messages(answer, ret_val, ret_err)
    }

    /// Begins an asynchronous request for one value.
    pub fn format_value(id: &NsCString, args: &ThinVec<L10nArg>) -> (pending: PendingValue)
        ensures
            pending.asked()@ == value_key(*id, *args),
    {
        PendingValue {
            key: FluentL10nKey { id: id.to_utf8(), args: convert_args_to_owned(arg_slice(args)) },
        }
    }

    /// Begins an asynchronous request for values: what the bundles are to be asked for, and the
    /// request that waits for their answer.
    pub fn format_values(keys: &ThinVec<L10nKey>) -> (begun: (
        Vec<FluentL10nKey>,
        PendingValues,
    ))
        ensures
            asks_for(begun.0@, keys_in(*keys)),
            begun.1.asked() == keys_in(*keys).len(),
    {
        let asked = convert_keys(keys);
        let count: usize = asked.len();
        (asked, PendingValues { count })
    }

    /// Begins an asynchronous request for messages: what the bundles are to be asked for, and the
    /// request that waits for their answer.
    pub fn format_messages(keys: &ThinVec<L10nKey>) -> (begun: (
        Vec<FluentL10nKey>,
        PendingMessages,
    ))
        ensures
            asks_for(begun.0@, keys_in(*keys)),
            begun.1.asked() == keys_in(*keys).len(),
    {
        let asked = convert_keys(keys);
        let count: usize = asked.len();
        (asked, PendingMessages { count })
    }
}

/// A handle for the locales of the browser.
pub fn localization_new(is_sync: bool) -> (handle: LocalizationRc)
    ensures
        handle@ == new_handle(is_sync, None),
{
    LocalizationRc::new(is_sync, None)
}

/// A handle for the locales that the strings name, or for those of the browser where there is no
/// list; there is no handle where one of the strings names no locale.
pub fn localization_new_with_locales(
    is_sync: bool,
    locales: Option<&ThinVec<NsCString>>,
) -> (handle: Option<LocalizationRc>)
    ensures
        (match handle {
            Some(handle) => Some(handle@),
            None => None,
        }) == (match requested_locales(locales) {
            Some(locales) => Some(new_handle(is_sync, locales)),
            None => None,
        }),
{
    match locales {
        Some(names) => match parse_locales(names) {
            Some(locales) => Some(LocalizationRc::new(is_sync, Some(locales))),
            None => None,
        },
        None => Some(LocalizationRc::new(is_sync, None)),
    }
}

/// Adds an owner to a handle.
pub fn localization_addref(loc: &mut LocalizationRc)
    requires
        old(loc)@.refcnt < usize::MAX,
    ensures
        final(loc)@ == with_owner(old(loc)@),
{
    loc.refcnt = loc.refcnt + 1;
}

/// Takes an owner from a handle, and tells whether it was the last one, so that the handle is to
/// be freed.
pub fn localization_release(loc: &mut LocalizationRc) -> (last: bool)
    requires
        old(loc)@.refcnt > 0,
    ensures
        final(loc)@ == without_owner(old(loc)@),
        last == (final(loc)@.refcnt == 0),
{
    loc.refcnt = loc.refcnt - 1;
    loc.refcnt == 0
}

/// To take an owner from a handle undoes to add one, and leaves everything else alone.
pub proof fn release_undoes_addref(handle: LocalizationView)
    ensures
        without_owner(with_owner(handle)) == handle,
        handle.refcnt > 0 ==> with_owner(without_owner(handle)) == handle,
{
}

/// A handle with one owner more than it had, for each of `owners` in turn.
pub open spec fn with_owners(handle: LocalizationView, owners: nat) -> LocalizationView
    decreases owners,
{
    if owners == 0 {
        handle
    } else {
        with_owner(with_owners(handle, (owners - 1) as nat))
    }
}

/// A handle with one owner less than it had, for each of `owners` in turn.
pub open spec fn without_owners(handle: LocalizationView, owners: nat) -> LocalizationView
    decreases owners,
{
    if owners == 0 {
        handle
    } else {
        without_owner(without_owners(handle, (owners - 1) as nat))
    }
}

/// A handle is to be freed when the last of its owners lets go of it, and not before.
pub proof fn handle_lives_as_long_as_its_owners(
    sync: bool,
    locales: Option<Seq<LanguageIdentifier>>,
    owners: nat,
    released: nat,
)
    requires
        released <= owners,
    ensures
        without_owners(with_owners(new_handle(sync, locales), owners), released) == (
        LocalizationView { sync, locales, refcnt: (owners - released) as nat }),
    decreases owners + released,
{
    if released > 0 {
        handle_lives_as_long_as_its_owners(sync, locales, owners, (released - 1) as nat);
    } else if owners > 0 {
        handle_lives_as_long_as_its_owners(sync, locales, (owners - 1) as nat, 0);
    }
}

/// A handle that has given up synchronous requests stays so, and keeps its locales and owners.
pub proof fn async_handle_stays_async(handle: LocalizationView)
    ensures
        !made_async(handle).sync,
        made_async(made_async(handle)) == made_async(handle),
        made_async(with_owner(handle)) == with_owner(made_async(handle)),
        made_async(handle).locales == handle.locales,
        made_async(handle).refcnt == handle.refcnt,
        !handle.sync ==> made_async(handle) == handle,
{
}

/// A list of locales that cannot all be read gives no handle, and one that can gives a handle for
/// as many locales, in the order of the list.
pub proof fn locales_are_all_read_or_none(names: ThinVec<NsCString>)
    ensures
        requested_locales(Some(&names)) is Some <==> forall|i: int|
            0 <= i < strings_in(names).len() ==> language_identifier(
                bytes_of(#[trigger] strings_in(names)[i]),
            ) is Some,
        requested_locales(Some(&names)) matches Some(locales) ==> {
            &&& locales is Some
            &&& locales->0.len() == strings_in(names).len()
            &&& forall|i: int|
                0 <= i < strings_in(names).len() ==> Some(#[trigger] locales->0[i])
                    == language_identifier(bytes_of(strings_in(names)[i]))
        },
{
}

/// A value is the same whether it was asked for synchronously or not, and so are the errors.
pub proof fn sync_and_async_values_agree(
    answer: Answer<Option<String>>,
    before: (Option<Seq<u8>>, Seq<Option<Seq<u8>>>),
    after: (Option<Seq<u8>>, Seq<Option<Seq<u8>>>),
    done: bool,
)
    requires
        value_delivered(answer, before, after, done),
        done,
    ensures
        after.0 == shown_value(answer.outcome->Ok_0),
        before.1.len() == 0 ==> after.1 == error_strings(answer.errors@),
{
    assert(before.1.len() == 0 ==> before.1 + error_strings(answer.errors@) =~= error_strings(
        answer.errors@,
    ));
}

/// A list that was empty holds the same values whether they were asked for synchronously or not,
/// and so it is with the errors.
pub proof fn sync_and_async_value_lists_agree(
    answer: Answer<Vec<Option<String>>>,
    before: (Seq<Option<Seq<u8>>>, Seq<Option<Seq<u8>>>),
    after: (Seq<Option<Seq<u8>>>, Seq<Option<Seq<u8>>>),
    done: bool,
)
    requires
        values_delivered(answer, before, after, done),
        done,
    ensures
        before.0.len() == 0 ==> after.0 == shown_values(answer.outcome->Ok_0@),
        before.1.len() == 0 ==> after.1 == error_strings(answer.errors@),
{
    let values = shown_values(answer.outcome->Ok_0@);
    assert(before.0.len() == 0 ==> before.0 + values =~= values);
    let errors = error_strings(answer.errors@);
    assert(before.1.len() == 0 ==> before.1 + errors =~= errors);
}

/// A list that was empty holds the same messages whether they were asked for synchronously or
/// not, and so it is with the errors.
pub proof fn sync_and_async_message_lists_agree(
    answer: Answer<Vec<Option<FluentL10nMessage>>>,
    before: (Seq<OptionalMessageView>, Seq<Option<Seq<u8>>>),
    after: (Seq<OptionalMessageView>, Seq<Option<Seq<u8>>>),
    done: bool,
)
    requires
        messages_delivered(answer, before, after, done),
        done,
    ensures
        before.0.len() == 0 ==> after.0 == shown_messages(answer.outcome->Ok_0@),
        before.1.len() == 0 ==> after.1 == error_strings(answer.errors@),
{
    let messages = shown_messages(answer.outcome->Ok_0@);
    assert(before.0.len() == 0 ==> before.0 + messages =~= messages);
    let errors = error_strings(answer.errors@);
    assert(before.1.len() == 0 ==> before.1 + errors =~= errors);
}

/// Where the bundles answer a synchronous request exactly when the handle is synchronous, the
/// browser gets a value exactly then. Else nothing changes, and so it is after `set_async`, whatever
/// was asked for.
pub proof fn sync_value_needs_sync_handle(
    handle: LocalizationView,
    answer: Answer<Option<String>>,
    before: (Option<Seq<u8>>, Seq<Option<Seq<u8>>>),
    after: (Option<Seq<u8>>, Seq<Option<Seq<u8>>>),
    done: bool,
)
    requires
        value_delivered(answer, before, after, done),
        answer.outcome is Ok <==> handle.sync,
    ensures
        done == handle.sync,
        !handle.sync ==> after == before,
        forall|earlier: LocalizationView|
            handle == #[trigger] made_async(earlier) ==> !done && after == before,
{
}

/// Where the bundles answer a synchronous request exactly when the handle is synchronous, the
/// browser gets values exactly then. Else nothing changes, and so it is after `set_async`, whatever
/// was asked for.
pub proof fn sync_values_need_sync_handle(
    handle: LocalizationView,
    answer: Answer<Vec<Option<String>>>,
    before: (Seq<Option<Seq<u8>>>, Seq<Option<Seq<u8>>>),
    after: (Seq<Option<Seq<u8>>>, Seq<Option<Seq<u8>>>),
    done: bool,
)
    requires
        values_delivered(answer, before, after, done),
        answer.outcome is Ok <==> handle.sync,
    ensures
        done == handle.sync,
        !handle.sync ==> after == before,
        forall|earlier: LocalizationView|
            handle == #[trigger] made_async(earlier) ==> !done && after == before,
{
}

/// Where the bundles answer a synchronous request exactly when the handle is synchronous, the
/// browser gets messages exactly then. Else nothing changes, and so it is after `set_async`, whatever
/// was asked for.
pub proof fn sync_messages_need_sync_handle(
    handle: LocalizationView,
    answer: Answer<Vec<Option<FluentL10nMessage>>>,
    before: (Seq<OptionalMessageView>, Seq<Option<Seq<u8>>>),
    after: (Seq<OptionalMessageView>, Seq<Option<Seq<u8>>>),
    done: bool,
)
    requires
        messages_delivered(answer, before, after, done),
        answer.outcome is Ok <==> handle.sync,
    ensures
        done == handle.sync,
        !handle.sync ==> after == before,
        forall|earlier: LocalizationView|
            handle == #[trigger] made_async(earlier) ==> !done && after == before,
{
}

/// A message that is asked for alone by its value gets the very string that it gets among others,
/// and that it gets as the value of the message.
pub proof fn value_is_shown_alike_everywhere(values: Seq<Option<String>>, i: int)
    requires
        0 <= i < values.len(),
    ensures
        shown_values(values).len() == values.len(),
        shown_values(values)[i] == shown_value(values[i]),
        forall|message: FluentL10nMessage|
            message.value == values[i] ==> (#[trigger] shown_message(message)).value
                == shown_values(values)[i],
{
}

/// What the bundles are asked for one value has the text of the identifier, and arguments exactly
/// where the list has some, for exactly the names that occur in it.
pub proof fn value_names_reach_the_bundles(
    key: FluentL10nKey,
    id: NsCString,
    args: ThinVec<L10nArg>,
    name: Seq<char>,
)
    requires
        key@ == value_key(id, args),
    ensures
        key.id@ == text_of(bytes_of(id@)),
        key.args is None <==> args_in(args).len() == 0,
        key.args matches Some(held) ==> (arguments(held).dom().contains(name) <==> exists|i: int|
            0 <= i < args_in(args).len() && text_of(bytes_of((#[trigger] args_in(args)[i]).id@))
                == name),
{
    names_of_the_list_reach_fluent(args_in(args), name);
}

/// What the bundles are asked for one value has, for each name in the list, the value that was
/// given last for it.
pub proof fn value_arguments_reach_the_bundles(
    key: FluentL10nKey,
    id: NsCString,
    args: ThinVec<L10nArg>,
    i: int,
)
    requires
        key@ == value_key(id, args),
        0 <= i < args_in(args).len(),
        forall|j: int|
            i < j < args_in(args).len() ==> text_of(bytes_of((#[trigger] args_in(args)[j]).id@))
                != text_of(bytes_of(args_in(args)[i].id@)),
    ensures
        key.args is Some,
        arguments(key.args->0).dom().contains(text_of(bytes_of(args_in(args)[i].id@))),
        arguments(key.args->0)[text_of(bytes_of(args_in(args)[i].id@))] == (match args_in(
            args,
        )[i].value {
            FluentArgument::Double_(number) => ArgumentView::Number(number),
            FluentArgument::String(string) => ArgumentView::Text(text_of(bytes_of(string@))),
        }),
{
    values_of_the_list_reach_fluent(args_in(args), i);
}

/// A message is asked for in the same way alone, by its value, and among others.
pub proof fn one_key_is_asked_for_alike(key: L10nKey)
    ensures
        value_key(key.id, key.args) == key@,
{
}

/// A synchronous request for a value that the bundles answer gives exactly the rebranded value,
/// void where there is none, and puts all errors behind those that were there, which stay. One that
/// they refuse changes nothing.
pub proof fn value_is_delivered_whole(
    answer: Answer<Option<String>>,
    before: (Option<Seq<u8>>, Seq<Option<Seq<u8>>>),
    after: (Option<Seq<u8>>, Seq<Option<Seq<u8>>>),
    done: bool,
)
    requires
        value_delivered(answer, before, after, done),
    ensures
        done <==> answer.outcome is Ok,
        !done ==> after == before,
        answer.outcome matches Ok(value) ==> (value is None <==> after.0 is None),
        answer.outcome matches Ok(Some(text)) ==> {
            &&& after.0 == Some(encode_utf8(rebranded(text@)))
            &&& text_of(bytes_of(after.0)) == rebranded(text@)
        },
        done ==> after.1.len() == before.1.len() + answer.errors@.len(),
        forall|k: int| 0 <= k < before.1.len() ==> #[trigger] after.1[k] == before.1[k],
        done ==> forall|k: int|
            #![trigger answer.errors@[k]]
            0 <= k < answer.errors@.len() ==> {
                let string = after.1[before.1.len() + k];
                &&& string == Some(encode_utf8(answer.errors@[k].text@))
                &&& text_of(bytes_of(string)) == answer.errors@[k].text@
            },
{
    if done {
        value_is_shown_whole(answer.outcome->Ok_0);
    }
    if done {
        errors_are_shown_in_place(answer.errors@, -1);
        assert forall|k: int| #![trigger answer.errors@[k]] 0 <= k < answer.errors@.len() implies {
            let string = after.1[before.1.len() + k];
            &&& string == Some(encode_utf8(answer.errors@[k].text@))
            &&& text_of(bytes_of(string)) == answer.errors@[k].text@
        } by {
            errors_are_shown_in_place(answer.errors@, k);
        }
    }
}

/// A synchronous request for values that the bundles answer puts exactly the rebranded values, void
/// where there is none, behind those that were there, in order, and so it does with the errors. One
/// that they refuse changes nothing.
pub proof fn values_are_delivered_whole(
    answer: Answer<Vec<Option<String>>>,
    before: (Seq<Option<Seq<u8>>>, Seq<Option<Seq<u8>>>),
    after: (Seq<Option<Seq<u8>>>, Seq<Option<Seq<u8>>>),
    done: bool,
    i: int,
)
    requires
        values_delivered(answer, before, after, done),
    ensures
        done <==> answer.outcome is Ok,
        !done ==> after == before,
        forall|k: int| 0 <= k < before.0.len() ==> #[trigger] after.0[k] == before.0[k],
        answer.outcome matches Ok(values) ==> {
            &&& after.0.len() == before.0.len() + values@.len()
            &&& 0 <= i < values@.len() ==> {
                let string = after.0[before.0.len() + i];
                &&& values@[i] is None <==> string is None
                &&& values@[i] matches Some(text) ==> string == Some(encode_utf8(rebranded(text@)))
                    && text_of(bytes_of(string)) == rebranded(text@)
            }
        },
        done ==> after.1.len() == before.1.len() + answer.errors@.len(),
        forall|k: int| 0 <= k < before.1.len() ==> #[trigger] after.1[k] == before.1[k],
        done ==> forall|k: int|
            #![trigger answer.errors@[k]]
            0 <= k < answer.errors@.len() ==> {
                let string = after.1[before.1.len() + k];
                &&& string == Some(encode_utf8(answer.errors@[k].text@))
                &&& text_of(bytes_of(string)) == answer.errors@[k].text@
            },
{
    if done {
        let values = answer.outcome->Ok_0@;
        lists_are_shown_in_full_length(values, Seq::empty());
        if 0 <= i < values.len() {
            values_are_shown_in_place(values, i);
        }
    }
    if done {
        errors_are_shown_in_place(answer.errors@, -1);
        assert forall|k: int| #![trigger answer.errors@[k]] 0 <= k < answer.errors@.len() implies {
            let string = after.1[before.1.len() + k];
            &&& string == Some(encode_utf8(answer.errors@[k].text@))
            &&& text_of(bytes_of(string)) == answer.errors@[k].text@
        } by {
            errors_are_shown_in_place(answer.errors@, k);
        }
    }
}

/// A synchronous request for messages that the bundles answer puts the messages, marked where they
/// are missing, with their rebranded values and all of their attributes, behind those that were
/// there, in order, and so it does with the errors. One that they refuse changes nothing.
pub proof fn messages_are_delivered_whole(
    answer: Answer<Vec<Option<FluentL10nMessage>>>,
    before: (Seq<OptionalMessageView>, Seq<Option<Seq<u8>>>),
    after: (Seq<OptionalMessageView>, Seq<Option<Seq<u8>>>),
    done: bool,
    i: int,
)
    requires
        messages_delivered(answer, before, after, done),
    ensures
        done <==> answer.outcome is Ok,
        !done ==> after == before,
        forall|k: int| 0 <= k < before.0.len() ==> #[trigger] after.0[k] == before.0[k],
        answer.outcome matches Ok(messages) ==> {
            &&& after.0.len() == before.0.len() + messages@.len()
            &&& 0 <= i < messages@.len() ==> {
                let shown = after.0[before.0.len() + i];
                &&& shown.is_present <==> messages@[i] is Some
                &&& messages@[i] is None ==> shown.message.value == Some(Seq::<u8>::empty())
                    && shown.message.attributes.len() == 0
                &&& messages@[i] matches Some(message) ==> {
                    &&& message.value is None <==> shown.message.value is None
                    &&& message.value matches Some(text) ==> shown.message.value == Some(
                        encode_utf8(rebranded(text@)),
                    )
                    &&& shown.message.attributes.len() == message.attributes@.len()
                    &&& forall|j: int|
                        #![trigger shown.message.attributes[j]]
                        #![trigger message.attributes@[j]]
                        0 <= j < message.attributes@.len() ==> {
                            let attribute = message.attributes@[j];
                            let seen = shown.message.attributes[j];
                            &&& seen.name == Some(encode_utf8(attribute.name@))
                            &&& seen.value == Some(encode_utf8(rebranded(attribute.value@)))
                        }
                }
            }
        },
        done ==> after.1.len() == before.1.len() + answer.errors@.len(),
        forall|k: int| 0 <= k < before.1.len() ==> #[trigger] after.1[k] == before.1[k],
        done ==> forall|k: int|
            #![trigger answer.errors@[k]]
            0 <= k < answer.errors@.len() ==> {
                let string = after.1[before.1.len() + k];
                &&& string == Some(encode_utf8(answer.errors@[k].text@))
                &&& text_of(bytes_of(string)) == answer.errors@[k].text@
            },
{
    if done {
        let messages = answer.outcome->Ok_0@;
        lists_are_shown_in_full_length(Seq::empty(), messages);
        if 0 <= i < messages.len() {
            messages_are_shown_in_place(messages, i);
        }
    }
    if done {
        errors_are_shown_in_place(answer.errors@, -1);
        assert forall|k: int| #![trigger answer.errors@[k]] 0 <= k < answer.errors@.len() implies {
            let string = after.1[before.1.len() + k];
            &&& string == Some(encode_utf8(answer.errors@[k].text@))
            &&& text_of(bytes_of(string)) == answer.errors@[k].text@
        } by {
            errors_are_shown_in_place(answer.errors@, k);
        }
    }
}

/// A handle is made in the mode and for the locales that were asked for, and without an owner.
pub proof fn new_handle_is_as_asked_for(sync: bool, locales: Option<Seq<LanguageIdentifier>>)
    ensures
        new_handle(sync, locales).sync == sync,
        new_handle(sync, locales).locales == locales,
        new_handle(sync, locales).refcnt == 0,
{
}

/// To add an owner or to take one changes how many there are by one, and nothing else.
pub proof fn owners_are_counted_one_by_one(handle: LocalizationView)
    ensures
        with_owner(handle).refcnt == handle.refcnt + 1,
        with_owner(handle).sync == handle.sync,
        with_owner(handle).locales == handle.locales,
        handle.refcnt > 0 ==> without_owner(handle).refcnt == handle.refcnt - 1,
        without_owner(handle).sync == handle.sync,
        without_owner(handle).locales == handle.locales,
{
}

/// Without a list of locales a handle can always be made, and it is for those of the browser.
pub proof fn no_list_means_the_locales_of_the_browser()
    ensures
        requested_locales(None) == Some(None::<Seq<LanguageIdentifier>>),
{
}

/// A report on the answer to a request has the words of the failure, the variable that the failure
/// names, and a line for each message that was asked for, in order.
pub proof fn report_lists_the_messages(
    report: MissingArgument,
    errors: Seq<L10nError>,
    i: int,
    j: int,
    ids: Seq<String>,
    k: int,
)
    requires
        reports_messages(report, errors, i, j, ids),
    ensures
        report.message@ == errors[i].failures@[j].text@,
        report.lines@.len() == 2 + ids.len(),
        report.lines@[0]@ == "Fluent error, the argument \"$"@
            + errors[i].failures@[j].unknown_variable->0@ + "\" was not provided a value."@,
        report.lines@[1]@ == "This error happened while formatting the following messages:"@,
        0 <= k < ids.len() ==> report.lines@[2 + k]@ == "  "@ + debug_text(ids[k]@),
{
}

} // verus!
