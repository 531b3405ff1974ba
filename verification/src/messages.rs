//! The messages that the browser gets.

use crate::lists::{new_attributes, push_attribute};
use crate::nsstring::NsCString;
use crate::rebrand::rebrand;
use thin_vec::ThinVec;
use vstd::prelude::*;

#[allow(unused_imports)]
use crate::lists::attributes_in;
#[allow(unused_imports)]
use crate::nsstring::{bytes_of, text_is_read_back, text_of, void_string_reads_as_empty};
#[allow(unused_imports)]
use crate::rebrand::{occurs, rebranded, rebranded_text_holds_no_foreign_brand};
#[allow(unused_imports)]
use vstd::utf8::encode_utf8;

verus! {

/// An attribute as Fluent formats it.
#[derive(Debug)]
pub struct FluentL10nAttribute {
    pub name: String,
    pub value: String,
}

/// A message as Fluent formats it.
#[derive(Debug)]
pub struct FluentL10nMessage {
    pub value: Option<String>,
    pub attributes: Vec<FluentL10nAttribute>,
}

/// An attribute as the browser gets it.
#[derive(Debug)]
pub struct L10nAttribute {
    pub name: NsCString,
    pub value: NsCString,
}

/// A message as the browser gets it: the value is void where the message has none.
#[derive(Debug)]
pub struct L10nMessage {
    pub value: NsCString,
    pub attributes: ThinVec<L10nAttribute>,
}

/// A message as the browser gets it, or a note that there is none.
#[derive(Debug)]
pub struct OptionalL10nMessage {
    pub is_present: bool,
    pub message: L10nMessage,
}

/// What an attribute holds.
pub struct AttributeView {
    pub name: Option<Seq<u8>>,
    pub value: Option<Seq<u8>>,
}

/// What a message holds.
pub struct MessageView {
    pub value: Option<Seq<u8>>,
    pub attributes: Seq<AttributeView>,
}

/// What a message that may be missing holds.
pub struct OptionalMessageView {
    pub is_present: bool,
    pub message: MessageView,
}

impl View for L10nAttribute {
    type V = AttributeView;

    open spec fn view(&self) -> AttributeView {
        AttributeView { name: self.name@, value: self.value@ }
    }
}

impl View for L10nMessage {
    type V = MessageView;

    open spec fn view(&self) -> MessageView {
        MessageView { value: self.value@, attributes: attributes_in(self.attributes) }
    }
}

impl View for OptionalL10nMessage {
    type V = OptionalMessageView;

    open spec fn view(&self) -> OptionalMessageView {
        OptionalMessageView { is_present: self.is_present, message: self.message@ }
    }
}

/// The content of the string that the browser gets for a localized value: void where there is no
/// value, and else the text under this browser's names.
pub open spec fn shown_value(value: Option<String>) -> Option<Seq<u8>> {
    match value {
        Some(text) => Some(encode_utf8(rebranded(text@))),
        None => None,
    }
}

/// What the browser gets for a list of values.
pub open spec fn shown_values(values: Seq<Option<String>>) -> Seq<Option<Seq<u8>>> {
    values.map_values(|value: Option<String>| shown_value(value))
}

/// The attribute that the browser gets: the name as it is, the value under this browser's names.
pub open spec fn shown_attribute(attribute: FluentL10nAttribute) -> AttributeView {
    AttributeView {
        name: Some(encode_utf8(attribute.name@)),
        value: Some(encode_utf8(rebranded(attribute.value@))),
    }
}

/// The message that the browser gets.
pub open spec fn shown_message(message: FluentL10nMessage) -> MessageView {
    MessageView {
        value: shown_value(message.value),
        attributes: message.attributes@.map_values(
            |attribute: FluentL10nAttribute| shown_attribute(attribute),
        ),
    }
}

/// A message without anything in it: its value is empty, but not void.
pub open spec fn empty_message() -> MessageView {
    MessageView { value: Some(Seq::empty()), attributes: Seq::empty() }
}

/// What the browser gets for a message that may be missing.
pub open spec fn shown_optional_message(message: Option<FluentL10nMessage>) -> OptionalMessageView {
    match message {
        Some(message) => OptionalMessageView { is_present: true, message: shown_message(message) },
        None => OptionalMessageView { is_present: false, message: empty_message() },
    }
}

/// What the browser gets for a list of messages.
pub open spec fn shown_messages(messages: Seq<Option<FluentL10nMessage>>) -> Seq<
    OptionalMessageView,
> {
    messages.map_values(|message: Option<FluentL10nMessage>| shown_optional_message(message))
}

/// The string that the browser gets for a localized value.
pub fn show_value(value: &Option<String>) -> (string: NsCString)
    ensures
        string@ == shown_value(*value),
{
    match value {
        Some(text) => NsCString::from_text(rebrand(text.as_str()).as_str()),
        None => NsCString::void(),
    }
}

// What the strings and lists of the browser hold does not say which value they are, so none can be
// written down for what the two `from` return: their own `ensures` say what it holds.
impl vstd::std_specs::convert::FromSpecImpl<FluentL10nAttribute> for L10nAttribute {
    open spec fn obeys_from_spec() -> bool {
        false
    }

    open spec fn from_spec(attribute: FluentL10nAttribute) -> Self {
        arbitrary()
    }
}

impl From<FluentL10nAttribute> for L10nAttribute {
    /// The attribute with its texts as they are.
    fn from(attribute: FluentL10nAttribute) -> (converted: Self)
        ensures
            converted@ == (AttributeView {
                name: Some(encode_utf8(attribute.name@)),
                value: Some(encode_utf8(attribute.value@)),
            }),
    {
        L10nAttribute {
            name: NsCString::from_text(attribute.name.as_str()),
            value: NsCString::from_text(attribute.value.as_str()),
        }
    }
}

impl Default for L10nMessage {
    /// A message without anything in it.
    fn default() -> (message: Self)
        ensures
            message@ == empty_message(),
    {
        L10nMessage { value: NsCString::new(), attributes: new_attributes() }
    }
}

impl vstd::std_specs::convert::FromSpecImpl<FluentL10nMessage> for L10nMessage {
    open spec fn obeys_from_spec() -> bool {
        false
    }

    open spec fn from_spec(input: FluentL10nMessage) -> Self {
        arbitrary()
    }
}

impl From<FluentL10nMessage> for L10nMessage {
    /// The message under this browser's names, which replace others in the value and in the
    /// values of the attributes.
    fn from(input: FluentL10nMessage) -> (message: Self)
        ensures
            message@ == shown_message(input),
    {
        let mut attributes = new_attributes();
        let ghost shown = shown_message(input).attributes;
        assert(shown.take(0) =~= Seq::empty());
        for attribute in it: input.attributes
            invariant
                shown == it.seq().map_values(
                    |attribute: FluentL10nAttribute| shown_attribute(attribute),
                ),
                attributes_in(attributes) == shown.take(it.index() as int),
        {
            let ghost before = attribute;
            let renamed = FluentL10nAttribute {
                name: attribute.name,
                value: rebrand(attribute.value.as_str()),
            };
            push_attribute(&mut attributes, L10nAttribute::from(renamed));
            assert(shown[it.index() as int] == shown_attribute(before));
            assert(shown.take(it.index() + 1) =~= shown.take(it.index() as int).push(
                shown[it.index() as int],
            ));
        }
        assert(shown.take(shown.len() as int) =~= shown);
        L10nMessage { value: show_value(&input.value), attributes }
    }
}

/// What the browser gets for a message that may be missing.
pub fn show_optional_message(message: Option<FluentL10nMessage>) -> (shown: OptionalL10nMessage)
    ensures
        shown@ == shown_optional_message(message),
{
    match message {
        Some(message) => OptionalL10nMessage {
            is_present: true,
            message: L10nMessage::from(message),
        },
        None => OptionalL10nMessage { is_present: false, message: L10nMessage::default() },
    }
}

/// What the browser shows for a value reads as the value under this browser's names.
pub proof fn shown_value_reads_as_rebranded(value: String)
    ensures
        text_of(bytes_of(shown_value(Some(value)))) == rebranded(value@),
{
    text_is_read_back(rebranded(value@));
}

/// No value that the browser shows holds one of the names that are replaced.
pub proof fn shown_value_holds_no_foreign_brand(value: Option<String>)
    ensures
        !occurs(text_of(bytes_of(shown_value(value))), "Firefox"@),
        !occurs(text_of(bytes_of(shown_value(value))), "Mozilla"@),
{
    match value {
        Some(text) => {
            shown_value_reads_as_rebranded(text);
            rebranded_text_holds_no_foreign_brand(text@);
        },
        None => {
            void_string_reads_as_empty();
            reveal_strlit("Firefox");
            reveal_strlit("Mozilla");
        },
    }
}

/// No message that the browser shows holds one of the names that are replaced, neither in its
/// value nor in the value of an attribute, while the names of the attributes stay as they are.
pub proof fn shown_message_holds_no_foreign_brand(message: FluentL10nMessage)
    ensures
        !occurs(text_of(bytes_of(shown_message(message).value)), "Firefox"@),
        !occurs(text_of(bytes_of(shown_message(message).value)), "Mozilla"@),
        shown_message(message).attributes.len() == message.attributes@.len(),
        forall|i: int|
            #![trigger shown_message(message).attributes[i]]
            0 <= i < message.attributes@.len() ==> {
                let shown = shown_message(message).attributes[i];
                &&& text_of(bytes_of(shown.name)) == message.attributes@[i].name@
                &&& !occurs(text_of(bytes_of(shown.value)), "Firefox"@)
                &&& !occurs(text_of(bytes_of(shown.value)), "Mozilla"@)
            },
{
    shown_value_holds_no_foreign_brand(message.value);
    assert forall|i: int|
        #![trigger shown_message(message).attributes[i]]
        0 <= i < message.attributes@.len() implies {
        let shown = shown_message(message).attributes[i];
        &&& text_of(bytes_of(shown.name)) == message.attributes@[i].name@
        &&& !occurs(text_of(bytes_of(shown.value)), "Firefox"@)
        &&& !occurs(text_of(bytes_of(shown.value)), "Mozilla"@)
    } by {
        let attribute = message.attributes@[i];
        text_is_read_back(attribute.name@);
        shown_value_holds_no_foreign_brand(Some(attribute.value));
    }
}

/// A message that is missing can be told from every message that is there, and a message that has
/// no value from every message that has one, though the value may be empty.
pub proof fn missing_is_told_from_empty(message: Option<FluentL10nMessage>)
    ensures
        shown_optional_message(message).is_present <==> message is Some,
        message matches Some(present) ==> (shown_optional_message(message).message.value is None
            <==> present.value is None),
{
}

/// What an attribute, a message, or a message that may be missing holds is what its fields hold.
pub proof fn messages_hold_their_fields(
    attribute: L10nAttribute,
    message: L10nMessage,
    optional: OptionalL10nMessage,
)
    ensures
        attribute@.name == attribute.name@,
        attribute@.value == attribute.value@,
        message@.value == message.value@,
        message@.attributes == attributes_in(message.attributes),
        optional@.is_present == optional.is_present,
        optional@.message.value == optional.message.value@,
        optional@.message.attributes == attributes_in(optional.message.attributes),
{
}

/// A value is shown as exactly its rebranded text, and void where there is none.
pub proof fn value_is_shown_whole(value: Option<String>)
    ensures
        value is None <==> shown_value(value) is None,
        value matches Some(text) ==> {
            &&& shown_value(value) == Some(encode_utf8(rebranded(text@)))
            &&& text_of(bytes_of(shown_value(value))) == rebranded(text@)
        },
{
    if value is Some {
        shown_value_reads_as_rebranded(value->0);
    }
}

/// Values are shown one by one, each at its place.
pub proof fn values_are_shown_in_place(values: Seq<Option<String>>, i: int)
    requires
        0 <= i < values.len(),
    ensures
        shown_values(values).len() == values.len(),
        values[i] is None <==> shown_values(values)[i] is None,
        values[i] matches Some(text) ==> {
            &&& shown_values(values)[i] == Some(encode_utf8(rebranded(text@)))
            &&& text_of(bytes_of(shown_values(values)[i])) == rebranded(text@)
        },
{
    value_is_shown_whole(values[i]);
}

/// An attribute is shown under its own name, with exactly its rebranded value.
pub proof fn attribute_is_shown_whole(attribute: FluentL10nAttribute)
    ensures
        shown_attribute(attribute).name == Some(encode_utf8(attribute.name@)),
        shown_attribute(attribute).value == Some(encode_utf8(rebranded(attribute.value@))),
        text_of(bytes_of(shown_attribute(attribute).name)) == attribute.name@,
        text_of(bytes_of(shown_attribute(attribute).value)) == rebranded(attribute.value@),
{
    text_is_read_back(attribute.name@);
    text_is_read_back(rebranded(attribute.value@));
}

/// A message is shown with its value and with all of its attributes, each at its place, whether or
/// not it has a value.
pub proof fn message_is_shown_whole(message: FluentL10nMessage)
    ensures
        message.value is None <==> shown_message(message).value is None,
        message.value matches Some(text) ==> {
            &&& shown_message(message).value == Some(encode_utf8(rebranded(text@)))
            &&& text_of(bytes_of(shown_message(message).value)) == rebranded(text@)
        },
        shown_message(message).attributes.len() == message.attributes@.len(),
        forall|i: int|
            #![trigger shown_message(message).attributes[i]]
            #![trigger message.attributes@[i]]
            0 <= i < message.attributes@.len() ==> {
                let shown = shown_message(message).attributes[i];
                let attribute = message.attributes@[i];
                &&& shown.name == Some(encode_utf8(attribute.name@))
                &&& shown.value == Some(encode_utf8(rebranded(attribute.value@)))
                &&& text_of(bytes_of(shown.name)) == attribute.name@
                &&& text_of(bytes_of(shown.value)) == rebranded(attribute.value@)
            },
{
    value_is_shown_whole(message.value);
    assert forall|i: int| 0 <= i < message.attributes@.len() implies {
        let shown = #[trigger] shown_message(message).attributes[i];
        let attribute = message.attributes@[i];
        &&& shown.name == Some(encode_utf8(attribute.name@))
        &&& shown.value == Some(encode_utf8(rebranded(attribute.value@)))
        &&& text_of(bytes_of(shown.name)) == attribute.name@
        &&& text_of(bytes_of(shown.value)) == rebranded(attribute.value@)
    } by {
        attribute_is_shown_whole(message.attributes@[i]);
    }
}

/// A message that is there is marked so and shown with its value and with all of its attributes,
/// each at its place, whether or not it has a value.
pub proof fn present_message_is_shown_whole(message: FluentL10nMessage)
    ensures
        shown_optional_message(Some(message)).is_present,
        message.value is None <==> shown_optional_message(Some(message)).message.value is None,
        message.value matches Some(text) ==> {
            let shown = shown_optional_message(Some(message)).message.value;
            &&& shown == Some(encode_utf8(rebranded(text@)))
            &&& text_of(bytes_of(shown)) == rebranded(text@)
        },
        shown_optional_message(Some(message)).message.attributes.len() == message.attributes@.len(),
        forall|i: int|
            #![trigger shown_optional_message(Some(message)).message.attributes[i]]
            #![trigger message.attributes@[i]]
            0 <= i < message.attributes@.len() ==> {
                let shown = shown_optional_message(Some(message)).message.attributes[i];
                let attribute = message.attributes@[i];
                &&& shown.name == Some(encode_utf8(attribute.name@))
                &&& shown.value == Some(encode_utf8(rebranded(attribute.value@)))
                &&& text_of(bytes_of(shown.name)) == attribute.name@
                &&& text_of(bytes_of(shown.value)) == rebranded(attribute.value@)
            },
{
    message_is_shown_whole(message);
}

/// A message that is missing is marked so, and shown with an empty value and without attributes.
pub proof fn missing_message_is_shown_empty()
    ensures
        empty_message().value == Some(Seq::<u8>::empty()),
        empty_message().attributes.len() == 0,
        !shown_optional_message(None).is_present,
        shown_optional_message(None).message.value == Some(Seq::<u8>::empty()),
        shown_optional_message(None).message.attributes.len() == 0,
{
}

/// Messages are shown one by one, each at its place and marked where it is missing, with its value
/// and with all of its attributes.
pub proof fn messages_are_shown_in_place(messages: Seq<Option<FluentL10nMessage>>, i: int)
    requires
        0 <= i < messages.len(),
    ensures
        shown_messages(messages).len() == messages.len(),
        shown_messages(messages)[i].is_present <==> messages[i] is Some,
        messages[i] is None ==> {
            &&& shown_messages(messages)[i].message.value == Some(Seq::<u8>::empty())
            &&& shown_messages(messages)[i].message.attributes.len() == 0
        },
        messages[i] matches Some(message) ==> {
            let shown = shown_messages(messages)[i].message;
            &&& message.value is None <==> shown.value is None
            &&& message.value matches Some(text) ==> shown.value == Some(
                encode_utf8(rebranded(text@)),
            ) && text_of(bytes_of(shown.value)) == rebranded(text@)
            &&& shown.attributes.len() == message.attributes@.len()
            &&& forall|j: int|
                #![trigger shown.attributes[j]]
                #![trigger message.attributes@[j]]
                0 <= j < message.attributes@.len() ==> {
                    let attribute = message.attributes@[j];
                    &&& shown.attributes[j].name == Some(encode_utf8(attribute.name@))
                    &&& shown.attributes[j].value == Some(encode_utf8(rebranded(attribute.value@)))
                    &&& text_of(bytes_of(shown.attributes[j].name)) == attribute.name@
                    &&& text_of(bytes_of(shown.attributes[j].value)) == rebranded(attribute.value@)
                }
        },
{
    assert(shown_messages(messages)[i] == shown_optional_message(messages[i]));
    match messages[i] {
        Some(message) => present_message_is_shown_whole(message),
        None => missing_message_is_shown_empty(),
    }
}

/// A list is shown with as many values, or messages, as it has.
pub proof fn lists_are_shown_in_full_length(
    values: Seq<Option<String>>,
    messages: Seq<Option<FluentL10nMessage>>,
)
    ensures
        shown_values(values).len() == values.len(),
        shown_messages(messages).len() == messages.len(),
{
}

} // verus!
