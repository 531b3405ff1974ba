//! The keys by which messages are asked for.

use crate::args::{convert_args_to_owned, L10nArg};
use crate::lists::{arg_slice, key_slice};
use crate::nsstring::NsCString;
use fluent::FluentArgs;
use thin_vec::ThinVec;
use vstd::prelude::*;

#[allow(unused_imports)]
use crate::args::{
    arguments, converted_args, names_of_the_list_reach_fluent, optional_arguments,
    values_of_the_list_reach_fluent, ArgumentMap, ArgumentView, FluentArgument,
};
#[allow(unused_imports)]
use crate::lists::{args_in, keys_in};
#[allow(unused_imports)]
use crate::nsstring::{bytes_of, text_of};

verus! {

/// A message that the browser asks for, with the arguments for it.
#[derive(Debug)]
pub struct L10nKey {
    pub id: NsCString,
    pub args: ThinVec<L10nArg>,
}

/// A message that Fluent is asked for, with the arguments for it.
#[derive(Debug)]
pub struct FluentL10nKey {
    pub id: String,
    pub args: Option<FluentArgs<'static>>,
}

/// What is asked for.
pub struct KeyView {
    pub id: Seq<char>,
    pub args: Option<ArgumentMap>,
}

impl View for L10nKey {
    type V = KeyView;

    open spec fn view(&self) -> KeyView {
        KeyView { id: self.id.text(), args: converted_args(args_in(self.args)) }
    }
}

impl View for FluentL10nKey {
    type V = KeyView;

    open spec fn view(&self) -> KeyView {
        KeyView { id: self.id@, args: optional_arguments(self.args) }
    }
}

/// Fluent is asked for the very messages that the browser asked for, in the same order.
pub open spec fn asks_for(fluent_keys: Seq<FluentL10nKey>, keys: Seq<L10nKey>) -> bool {
    &&& fluent_keys.len() == keys.len()
    &&& forall|i: int| 0 <= i < keys.len() ==> (#[trigger] fluent_keys[i])@ == keys[i]@
}

// The arguments of a key are opaque, so no value can be written down for what `from` returns:
// its own `ensures` says what the key holds.
impl vstd::std_specs::convert::FromSpecImpl<&L10nKey> for FluentL10nKey {
    open spec fn obeys_from_spec() -> bool {
        false
    }

    open spec fn from_spec(input: &L10nKey) -> Self {
        arbitrary()
    }
}

impl From<&L10nKey> for FluentL10nKey {
    /// The key in the form in which Fluent takes it.
    fn from(input: &L10nKey) -> (key: Self)
        ensures
            key@ == input@,
    {
        FluentL10nKey {
            id: input.id.to_utf8(),
            args: convert_args_to_owned(arg_slice(&input.args)),
        }
    }
}

/// The keys of a list in the form in which Fluent takes them.
pub fn convert_keys(keys: &ThinVec<L10nKey>) -> (fluent_keys: Vec<FluentL10nKey>)
    ensures
        asks_for(fluent_keys@, keys_in(*keys)),
{
    let items = key_slice(keys);
    let mut fluent_keys: Vec<FluentL10nKey> = Vec::new();
    let mut i: usize = 0;
    while i < items.len()
        invariant
            i <= items@.len(),
            asks_for(fluent_keys@, items@.take(i as int)),
        decreases items@.len() - i,
    {
        fluent_keys.push(FluentL10nKey::from(&items[i]));
        i += 1;
    }
    assert(items@.take(i as int) =~= items@);
    fluent_keys
}

/// A key of Fluent that says what a key of the browser says has the text of its identifier, and
/// arguments exactly where that one has some, for exactly the names that occur among them.
pub proof fn key_names_reach_fluent(fluent_key: FluentL10nKey, key: L10nKey, name: Seq<char>)
    requires
        fluent_key@ == key@,
    ensures
        fluent_key.id@ == text_of(bytes_of(key.id@)),
        fluent_key.args is None <==> args_in(key.args).len() == 0,
        fluent_key.args matches Some(args) ==> (arguments(args).dom().contains(name)
            <==> exists|j: int|
            0 <= j < args_in(key.args).len() && text_of(
                bytes_of((#[trigger] args_in(key.args)[j]).id@),
            ) == name),
{
    names_of_the_list_reach_fluent(args_in(key.args), name);
}

/// A key of Fluent that says what a key of the browser says has, for each name, the value that was
/// given last for it.
pub proof fn key_values_reach_fluent(fluent_key: FluentL10nKey, key: L10nKey, j: int)
    requires
        fluent_key@ == key@,
        0 <= j < args_in(key.args).len(),
        forall|k: int|
            j < k < args_in(key.args).len() ==> text_of(
                bytes_of((#[trigger] args_in(key.args)[k]).id@),
            ) != text_of(bytes_of(args_in(key.args)[j].id@)),
    ensures
        fluent_key.args is Some,
        arguments(fluent_key.args->0).dom().contains(text_of(bytes_of(args_in(key.args)[j].id@))),
        arguments(fluent_key.args->0)[text_of(bytes_of(args_in(key.args)[j].id@))] == (
        match args_in(key.args)[j].value {
            FluentArgument::Double_(number) => ArgumentView::Number(number),
            FluentArgument::String(string) => ArgumentView::Text(text_of(bytes_of(string@))),
        }),
{
    values_of_the_list_reach_fluent(args_in(key.args), j);
}

/// Fluent is asked for as many messages as the browser, each at its place, by the text of its
/// identifier and with arguments for exactly the names that the browser gave.
pub proof fn listed_names_reach_fluent(
    fluent_keys: Seq<FluentL10nKey>,
    keys: Seq<L10nKey>,
    i: int,
    name: Seq<char>,
)
    requires
        asks_for(fluent_keys, keys),
        0 <= i < keys.len(),
    ensures
        fluent_keys.len() == keys.len(),
        fluent_keys[i].id@ == text_of(bytes_of(keys[i].id@)),
        fluent_keys[i].args is None <==> args_in(keys[i].args).len() == 0,
        fluent_keys[i].args matches Some(args) ==> (arguments(args).dom().contains(name)
            <==> exists|j: int|
            0 <= j < args_in(keys[i].args).len() && text_of(
                bytes_of((#[trigger] args_in(keys[i].args)[j]).id@),
            ) == name),
{
    assert(fluent_keys[i]@ == keys[i]@);
    key_names_reach_fluent(fluent_keys[i], keys[i], name);
}

/// Each message that Fluent is asked for has, for each name among its arguments, the value that the
/// browser gave last for it.
pub proof fn listed_values_reach_fluent(
    fluent_keys: Seq<FluentL10nKey>,
    keys: Seq<L10nKey>,
    i: int,
    j: int,
)
    requires
        asks_for(fluent_keys, keys),
        0 <= i < keys.len(),
        0 <= j < args_in(keys[i].args).len(),
        forall|k: int|
            j < k < args_in(keys[i].args).len() ==> text_of(
                bytes_of((#[trigger] args_in(keys[i].args)[k]).id@),
            ) != text_of(bytes_of(args_in(keys[i].args)[j].id@)),
    ensures
        fluent_keys[i].args is Some,
        arguments(fluent_keys[i].args->0).dom().contains(
            text_of(bytes_of(args_in(keys[i].args)[j].id@)),
        ),
        arguments(fluent_keys[i].args->0)[text_of(bytes_of(args_in(keys[i].args)[j].id@))] == (
        match args_in(keys[i].args)[j].value {
            FluentArgument::Double_(number) => ArgumentView::Number(number),
            FluentArgument::String(string) => ArgumentView::Text(text_of(bytes_of(string@))),
        }),
{
    assert(fluent_keys[i]@ == keys[i]@);
    key_values_reach_fluent(fluent_keys[i], keys[i], j);
}

/// Fluent is asked for as many messages as the browser asks for.
pub proof fn as_many_messages_are_asked_for(fluent_keys: Seq<FluentL10nKey>, keys: Seq<L10nKey>)
    requires
        asks_for(fluent_keys, keys),
    ensures
        fluent_keys.len() == keys.len(),
{
}

} // verus!
