//! The `ThinVec` lists in which the browser hands values over.
//!
//! `ThinVec` is the vector of the `thin_vec` crate. Each name says what a list of one kind of item
//! holds, in order, and each function calls one method of `ThinVec`; what it claims of that method
//! is trusted. As with any vector, a list that outgrows the memory ends the program.

use crate::args::L10nArg;
use crate::keys::L10nKey;
use crate::messages::{L10nAttribute, OptionalL10nMessage};
use crate::nsstring::NsCString;
use thin_vec::ThinVec;
use vstd::prelude::*;

#[allow(unused_imports)]
use crate::messages::{AttributeView, OptionalMessageView};

verus! {

/// The vector of the `thin_vec` crate.
#[verifier::external_type_specification]
#[verifier::external_body]
#[verifier::reject_recursive_types(T)]
pub struct ExThinVec<T>(ThinVec<T>);

/// What the strings of a list hold.
pub uninterp spec fn strings_in(list: ThinVec<NsCString>) -> Seq<Option<Seq<u8>>>;

/// What the attributes of a list hold.
pub uninterp spec fn attributes_in(list: ThinVec<L10nAttribute>) -> Seq<AttributeView>;

/// What the messages of a list hold.
pub uninterp spec fn messages_in(list: ThinVec<OptionalL10nMessage>) -> Seq<OptionalMessageView>;

/// The arguments in a list.
pub uninterp spec fn args_in(list: ThinVec<L10nArg>) -> Seq<L10nArg>;

/// The keys in a list.
pub uninterp spec fn keys_in(list: ThinVec<L10nKey>) -> Seq<L10nKey>;

/// Makes a list of strings by `ThinVec::new`.
///
/// Trusted: it holds nothing.
#[verifier::external_body]
pub(crate) fn new_strings() -> (list: ThinVec<NsCString>)
    ensures
        strings_in(list) == Seq::<Option<Seq<u8>>>::empty(),
{
    ThinVec::new()
}

/// Adds a string by `ThinVec::push`.
///
/// Trusted: it comes last, the others stay.
#[verifier::external_body]
pub(crate) fn push_string(list: &mut ThinVec<NsCString>, item: NsCString)
    ensures
        strings_in(*final(list)) == strings_in(*old(list)).push(item@),
{
    list.push(item)
}

/// Reads a list of strings by `ThinVec::as_slice`.
///
/// Trusted: the slice has its items, in order.
#[verifier::external_body]
pub(crate) fn string_slice(list: &ThinVec<NsCString>) -> (items: &[NsCString])
    ensures
        items@.map_values(|item: NsCString| item@) == strings_in(*list),
{
    list.as_slice()
}

/// Makes a list of attributes by `ThinVec::new`.
///
/// Trusted: it holds nothing.
#[verifier::external_body]
pub(crate) fn new_attributes() -> (list: ThinVec<L10nAttribute>)
    ensures
        attributes_in(list) == Seq::<AttributeView>::empty(),
{
    ThinVec::new()
}

/// Adds an attribute by `ThinVec::push`.
///
/// Trusted: it comes last, the others stay.
#[verifier::external_body]
pub(crate) fn push_attribute(list: &mut ThinVec<L10nAttribute>, item: L10nAttribute)
    ensures
        attributes_in(*final(list)) == attributes_in(*old(list)).push(item@),
{
    list.push(item)
}

/// Makes a list of messages by `ThinVec::new`.
///
/// Trusted: it holds nothing.
#[verifier::external_body]
pub(crate) fn new_messages() -> (list: ThinVec<OptionalL10nMessage>)
    ensures
        messages_in(list) == Seq::<OptionalMessageView>::empty(),
{
    ThinVec::new()
}

/// Adds a message by `ThinVec::push`.
///
/// Trusted: it comes last, the others stay.
#[verifier::external_body]
pub(crate) fn push_message(list: &mut ThinVec<OptionalL10nMessage>, item: OptionalL10nMessage)
    ensures
        messages_in(*final(list)) == messages_in(*old(list)).push(item@),
{
    list.push(item)
}

/// Reads a list of arguments by `ThinVec::as_slice`.
///
/// Trusted: the slice has its items, in order.
#[verifier::external_body]
pub(crate) fn arg_slice(list: &ThinVec<L10nArg>) -> (items: &[L10nArg])
    ensures
        items@ == args_in(*list),
{
    list.as_slice()
}

/// Reads a list of keys by `ThinVec::as_slice`.
///
/// Trusted: the slice has its items, in order.
#[verifier::external_body]
pub(crate) fn key_slice(list: &ThinVec<L10nKey>) -> (items: &[L10nKey])
    ensures
        items@ == keys_in(*list),
{
    list.as_slice()
}

} // verus!
