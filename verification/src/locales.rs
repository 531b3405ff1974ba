//! The locales that messages are localized to.

use crate::lists::string_slice;
use crate::nsstring::NsCString;
use thin_vec::ThinVec;
use unic_langid::{LanguageIdentifier, LanguageIdentifierError};
use vstd::prelude::*;

#[allow(unused_imports)]
use crate::lists::strings_in;
#[allow(unused_imports)]
use crate::nsstring::bytes_of;
#[allow(unused_imports)]
use vstd::utf8::encode_utf8;

verus! {

/// A language identifier of `unic_langid`.
#[verifier::external_type_specification]
#[verifier::external_body]
pub struct ExLanguageIdentifier(LanguageIdentifier);

/// What `unic_langid` says of bytes that are no language identifier.
#[verifier::external_type_specification]
#[verifier::external_body]
pub struct ExLanguageIdentifierError(LanguageIdentifierError);

/// The language identifier that `LanguageIdentifier::from_bytes` reads from `bytes`, if they are
/// one.
pub uninterp spec fn language_identifier(bytes: Seq<u8>) -> Option<LanguageIdentifier>;

/// Reads a language identifier by `LanguageIdentifier::from_bytes`.
///
/// Trusted: whether there is one, and which, depends on the bytes alone.
#[verifier::external_body]
fn parse_bytes(bytes: &[u8]) -> (parsed: Result<LanguageIdentifier, LanguageIdentifierError>)
    ensures
        language_identifier(bytes@) == (match parsed {
            Ok(locale) => Some(locale),
            Err(_) => None,
        }),
{
    LanguageIdentifier::from_bytes(bytes)
}

/// The locales that a list of strings names: none at all where one of the strings names none.
pub open spec fn named_locales(contents: Seq<Option<Seq<u8>>>) -> Option<Seq<LanguageIdentifier>> {
    if forall|i: int|
        0 <= i < contents.len() ==> language_identifier(
            bytes_of(#[trigger] contents[i]),
        ) is Some {
        Some(
            contents.map_values(
                |content: Option<Seq<u8>>| language_identifier(bytes_of(content))->0,
            ),
        )
    } else {
        None
    }
}

/// Reads the locale that a string names, if it names one.
pub fn localization_parse_locale(input: &NsCString) -> (locale: Option<LanguageIdentifier>)
    ensures
        locale == language_identifier(encode_utf8(input.text())),
{
    let text = input.to_utf8();
    match parse_bytes(text.as_str().as_bytes()) {
        Ok(locale) => Some(locale),
        Err(_) => None,
    }
}

/// Reads the locales that a list of strings names, if each of them names one.
pub fn parse_locales(names: &ThinVec<NsCString>) -> (locales: Option<Vec<LanguageIdentifier>>)
    ensures
        (match locales {
            Some(locales) => Some(locales@),
            None => None,
        }) == named_locales(strings_in(*names)),
{
    let items = string_slice(names);
    let ghost contents = strings_in(*names);
    let mut locales: Vec<LanguageIdentifier> = Vec::new();
    let mut i: usize = 0;
    while i < items.len()
        invariant
            i <= items@.len(),
            contents == strings_in(*names),
            items@.map_values(|item: NsCString| item@) == contents,
            locales@.len() == i,
            forall|j: int|
                0 <= j < i ==> language_identifier(bytes_of(#[trigger] contents[j])) == Some(
                    locales@[j],
                ),
        decreases items@.len() - i,
    {
        assert(contents[i as int] == items@[i as int]@);
        match parse_bytes(items[i].as_bytes()) {
            Ok(locale) => locales.push(locale),
            Err(_) => {
                return None;
            },
        }
        i += 1;
    }
    assert(items@.len() == contents.len());
    assert(named_locales(contents)->0 =~= locales@);
    Some(locales)
}

/// A list of strings names locales exactly where each of them names one, and then it names those,
/// each at its place.
pub proof fn each_string_names_its_locale(contents: Seq<Option<Seq<u8>>>)
    ensures
        named_locales(contents) is Some <==> forall|i: int|
            0 <= i < contents.len() ==> language_identifier(
                bytes_of(#[trigger] contents[i]),
            ) is Some,
        named_locales(contents) matches Some(locales) ==> {
            &&& locales.len() == contents.len()
            &&& forall|i: int|
                0 <= i < contents.len() ==> Some(#[trigger] locales[i]) == language_identifier(
                    bytes_of(contents[i]),
                )
        },
{
}

} // verus!
