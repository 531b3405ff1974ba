//! The arguments that a message is formatted with.

use crate::nsstring::NsCString;
use fluent::types::{FluentNumber, FluentValue};
use fluent::FluentArgs;
use vstd::prelude::*;

#[allow(unused_imports)]
use crate::nsstring::{bytes_of, text_of};

verus! {

/// A number of Fluent.
#[verifier::external_type_specification]
#[verifier::external_body]
pub struct ExFluentNumber(FluentNumber);

/// The map from names to values that Fluent formats a message with.
#[verifier::external_type_specification]
#[verifier::external_body]
pub struct ExFluentArgs<'a>(FluentArgs<'a>);

/// The value of an argument: a number or a string of the browser.
#[derive(Debug)]
pub enum FluentArgument {
    Double_(FluentNumber),
    String(NsCString),
}

/// An argument as the browser gives it.
#[derive(Debug)]
pub struct L10nArg {
    pub id: NsCString,
    pub value: FluentArgument,
}

/// What Fluent knows of the value of an argument.
pub enum ArgumentView {
    Number(FluentNumber),
    Text(Seq<char>),
}

/// Values by name.
pub type ArgumentMap = Map<Seq<char>, ArgumentView>;

impl View for FluentArgument {
    type V = ArgumentView;

    open spec fn view(&self) -> ArgumentView {
        match self {
            FluentArgument::Double_(number) => ArgumentView::Number(*number),
            FluentArgument::String(string) => ArgumentView::Text(string.text()),
        }
    }
}

/// The map that a list of arguments stands for: of several arguments with one name, the last
/// counts.
pub open spec fn argument_map(args: Seq<L10nArg>) -> ArgumentMap
    decreases args.len(),
{
    if args.len() == 0 {
        ArgumentMap::empty()
    } else {
        argument_map(args.drop_last()).insert(args.last().id.text(), args.last().value@)
    }
}

/// The arguments for Fluent that a list stands for: no map at all where the list is empty.
pub open spec fn converted_args(args: Seq<L10nArg>) -> Option<ArgumentMap> {
    if args.len() == 0 {
        None
    } else {
        Some(argument_map(args))
    }
}

/// What a `FluentArgs` holds, by name.
pub uninterp spec fn arguments(args: FluentArgs<'_>) -> ArgumentMap;

/// What there is of arguments in an optional `FluentArgs`.
pub open spec fn optional_arguments(args: Option<FluentArgs<'_>>) -> Option<ArgumentMap> {
    match args {
        Some(args) => Some(arguments(args)),
        None => None,
    }
}

/// Makes arguments by `FluentArgs::new`.
///
/// Trusted: it holds nothing.
#[verifier::external_body]
fn new_args() -> (made: FluentArgs<'static>)
    ensures
        arguments(made) == ArgumentMap::empty(),
{
    FluentArgs::new()
}

/// Sets a text by `FluentArgs::set`.
///
/// Trusted: the name has this text as its value afterwards, whatever it had, and no other name
/// is touched.
#[verifier::external_body]
fn set_text(args: &mut FluentArgs<'static>, name: String, text: String)
    ensures
        arguments(*final(args)) == arguments(*old(args)).insert(name@, ArgumentView::Text(text@)),
{
    args.set(name, FluentValue::from(text))
}

/// Sets a number by `FluentArgs::set`.
///
/// Trusted: the name has this number as its value afterwards, whatever it had, and no other name
/// is touched.
#[verifier::external_body]
fn set_number(args: &mut FluentArgs<'static>, name: String, number: &FluentNumber)
    ensures
        arguments(*final(args)) == arguments(*old(args)).insert(
            name@,
            ArgumentView::Number(*number),
        ),
{
    args.set(name, FluentValue::Number(number.clone()))
}

/// Converts the arguments of the browser to arguments of Fluent that own what they hold.
pub fn convert_args_to_owned(args: &[L10nArg]) -> (converted: Option<FluentArgs<'static>>)
    ensures
        optional_arguments(converted) == converted_args(args@),
{
    if args.len() == 0 {
        return None;
    }
    let mut result = new_args();
    let mut i: usize = 0;
    while i < args.len()
        invariant
            i <= args@.len(),
            arguments(result) == argument_map(args@.take(i as int)),
        decreases args@.len() - i,
    {
        let arg = &args[i];
        match &arg.value {
            FluentArgument::Double_(number) => set_number(&mut result, arg.id.to_utf8(), number),
            FluentArgument::String(string) => set_text(
                &mut result,
                arg.id.to_utf8(),
                string.to_utf8(),
            ),
        }
        assert(args@.take(i + 1).drop_last() =~= args@.take(i as int));
        i += 1;
    }
    assert(args@.take(i as int) =~= args@);
    Some(result)
}

/// Fluent gets a value for exactly the names that occur in the list.
pub proof fn every_argument_is_passed_on(args: Seq<L10nArg>, name: Seq<char>)
    ensures
        argument_map(args).dom().contains(name) <==> exists|i: int|
            0 <= i < args.len() && (#[trigger] args[i]).id.text() == name,
    decreases args.len(),
{
    if args.len() > 0 {
        every_argument_is_passed_on(args.drop_last(), name);
        if argument_map(args).dom().contains(name) {
            if args.last().id.text() == name {
                assert(args[args.len() - 1].id.text() == name);
            } else {
                let i = choose|i: int|
                    0 <= i < args.drop_last().len() && (#[trigger] args.drop_last()[i]).id.text()
                        == name;
                assert(args[i].id.text() == name);
            }
        }
        if exists|i: int| 0 <= i < args.len() && (#[trigger] args[i]).id.text() == name {
            let i = choose|i: int| 0 <= i < args.len() && (#[trigger] args[i]).id.text() == name;
            if i < args.len() - 1 {
                assert(args.drop_last()[i].id.text() == name);
            }
        }
    }
}

/// The value that Fluent gets for a name is the one that was given last.
pub proof fn last_argument_counts(args: Seq<L10nArg>, i: int)
    requires
        0 <= i < args.len(),
        forall|j: int| i < j < args.len() ==> (#[trigger] args[j]).id.text() != args[i].id.text(),
    ensures
        argument_map(args).dom().contains(args[i].id.text()),
        argument_map(args)[args[i].id.text()] == args[i].value@,
    decreases args.len(),
{
    if i < args.len() - 1 {
        assert(args[args.len() - 1].id.text() != args[i].id.text());
        assert forall|j: int| i < j < args.drop_last().len() implies (
        #[trigger] args.drop_last()[j]).id.text() != args.drop_last()[i].id.text() by {
            assert(args.drop_last()[j] == args[j]);
        }
        last_argument_counts(args.drop_last(), i);
    }
}

/// Fluent gets arguments exactly where the list is not empty, and then for exactly the names that
/// occur in it.
pub proof fn names_of_the_list_reach_fluent(args: Seq<L10nArg>, name: Seq<char>)
    ensures
        converted_args(args) is None <==> args.len() == 0,
        args.len() > 0 ==> (converted_args(args)->0.dom().contains(name) <==> exists|i: int|
            0 <= i < args.len() && text_of(bytes_of((#[trigger] args[i]).id@)) == name),
{
    every_argument_is_passed_on(args, name);
    if args.len() > 0 && converted_args(args)->0.dom().contains(name) {
        let i = choose|i: int| 0 <= i < args.len() && (#[trigger] args[i]).id.text() == name;
        assert(text_of(bytes_of(args[i].id@)) == name);
    }
}

/// An argument that no later one shares its name with reaches Fluent with its own value: a number
/// as that number, a string as the text that it reads as.
pub proof fn values_of_the_list_reach_fluent(args: Seq<L10nArg>, i: int)
    requires
        0 <= i < args.len(),
        forall|j: int|
            i < j < args.len() ==> text_of(bytes_of((#[trigger] args[j]).id@)) != text_of(
                bytes_of(args[i].id@),
            ),
    ensures
        converted_args(args) is Some,
        converted_args(args)->0.dom().contains(text_of(bytes_of(args[i].id@))),
        converted_args(args)->0[text_of(bytes_of(args[i].id@))] == (match args[i].value {
            FluentArgument::Double_(number) => ArgumentView::Number(number),
            FluentArgument::String(string) => ArgumentView::Text(text_of(bytes_of(string@))),
        }),
{
    last_argument_counts(args, i);
}

/// What there is of arguments is what the `FluentArgs` holds, where there is one.
pub proof fn optional_arguments_are_those_held(args: Option<FluentArgs<'_>>)
    ensures
        optional_arguments(args) is None <==> args is None,
        args matches Some(held) ==> optional_arguments(args) == Some(arguments(held)),
{
}

} // verus!
