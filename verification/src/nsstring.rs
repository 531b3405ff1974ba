//! The byte strings in which the browser hands text over.

use vstd::prelude::*;
use vstd::string::*;
use vstd::utf8::*;

verus! {

/// A string of the browser: void, which is how it says that there is no string at all, or a
/// sequence of bytes, which are mostly but not always UTF-8.
///
/// A void string and an empty one differ, but they read the same.
#[derive(Debug, PartialEq, Eq)]
pub struct NsCString {
    data: Option<Vec<u8>>,
}

impl View for NsCString {
    type V = Option<Seq<u8>>;

    closed spec fn view(&self) -> Option<Seq<u8>> {
        match self.data {
            Some(bytes) => Some(bytes@),
            None => None,
        }
    }
}

/// The bytes that a string with this content reads as.
pub open spec fn bytes_of(content: Option<Seq<u8>>) -> Seq<u8> {
    match content {
        Some(bytes) => bytes,
        None => Seq::empty(),
    }
}

/// The text that `String::from_utf8_lossy` makes of bytes that are not UTF-8.
pub uninterp spec fn lossy_text(bytes: Seq<u8>) -> Seq<char>;

/// The text that bytes read as: what they encode, or a text in which something else stands for
/// the parts that encode nothing.
pub open spec fn text_of(bytes: Seq<u8>) -> Seq<char> {
    if valid_utf8(bytes) {
        decode_utf8(bytes)
    } else {
        lossy_text(bytes)
    }
}

/// Decodes bytes as UTF-8 by `String::from_utf8_lossy`.
///
/// Trusted: where the bytes are valid UTF-8 the result is the text that they encode, and
/// elsewhere it depends on the bytes alone.
#[verifier::external_body]
fn from_utf8_lossy(bytes: &[u8]) -> (text: String)
    ensures
        text@ == (if valid_utf8(bytes@) {
            decode_utf8(bytes@)
        } else {
            lossy_text(bytes@)
        }),
{
    String::from_utf8_lossy(bytes).into_owned()
}

impl NsCString {
    /// The text that the string reads as.
    pub open spec fn text(&self) -> Seq<char> {
        text_of(bytes_of(self@))
    }

    /// An empty string, which is not void.
    pub fn new() -> (string: Self)
        ensures
            string@ == Some(Seq::<u8>::empty()),
    {
        NsCString { data: Some(Vec::new()) }
    }

    /// A void string.
    pub fn void() -> (string: Self)
        ensures
            string@ == None::<Seq<u8>>,
    {
        NsCString { data: None }
    }

    /// A string of these bytes.
    pub fn from_bytes(bytes: Vec<u8>) -> (string: Self)
        ensures
            string@ == Some(bytes@),
    {
        NsCString { data: Some(bytes) }
    }

    /// A string that holds `text`.
    pub fn from_text(text: &str) -> (string: Self)
        ensures
            string@ == Some(encode_utf8(text@)),
    {
        NsCString { data: Some(text.as_bytes_vec()) }
    }

    /// Makes the string hold `text`, whatever it held before.
    pub fn assign(&mut self, text: &str)
        ensures
            final(self)@ == Some(encode_utf8(text@)),
    {
        self.data = Some(text.as_bytes_vec());
    }

    /// Makes the string void; its bytes are gone.
    pub fn set_void(&mut self)
        ensures
            final(self)@ == None::<Seq<u8>>,
    {
        self.data = None;
    }

    /// Tells whether the string is void.
    pub fn is_void(&self) -> (void: bool)
        ensures
            void == (self@ is None),
    {
        self.data.is_none()
    }

    /// The bytes of the string, none where it is void.
    pub fn as_bytes(&self) -> (bytes: &[u8])
        ensures
            bytes@ == bytes_of(self@),
    {
        match &self.data {
            Some(bytes) => bytes.as_slice(),
            None => &[],
        }
    }

    /// The string as text; what is not UTF-8 in it is replaced.
    pub fn to_utf8(&self) -> (text: String)
        ensures
            text@ == self.text(),
    {
        from_utf8_lossy(self.as_bytes())
    }
}

/// A string that was made from a text reads as that text.
pub proof fn text_is_read_back(text: Seq<char>)
    ensures
        text_of(bytes_of(Some(encode_utf8(text)))) == text,
{
    encode_utf8_valid_utf8(text);
    encode_utf8_decode_utf8(text);
}

/// A void string reads as the empty text, as an empty string does.
pub proof fn void_string_reads_as_empty()
    ensures
        text_of(bytes_of(None)) == Seq::<char>::empty(),
        text_of(bytes_of(Some(Seq::empty()))) == Seq::<char>::empty(),
{
}

/// The bytes of a string are those that it holds, and a void string has none.
pub proof fn bytes_are_read_back(content: Option<Seq<u8>>)
    ensures
        content matches Some(bytes) ==> bytes_of(content) == bytes,
        content is None ==> bytes_of(content).len() == 0,
{
}

/// Text that is read from UTF-8 is written back as the very bytes, so no part of it is lost. Other
/// bytes read as `String::from_utf8_lossy` reads them.
pub proof fn text_is_written_back(bytes: Seq<u8>)
    ensures
        valid_utf8(bytes) ==> encode_utf8(text_of(bytes)) == bytes,
        !valid_utf8(bytes) ==> text_of(bytes) == lossy_text(bytes),
{
    if valid_utf8(bytes) {
        decode_utf8_encode_utf8(bytes);
    }
}

/// A string reads as the text of its bytes.
pub proof fn string_reads_as_its_bytes(string: NsCString)
    ensures
        string@ matches Some(bytes) ==> string.text() == text_of(bytes),
        string@ is None ==> string.text().len() == 0,
{
    void_string_reads_as_empty();
}

} // verus!
