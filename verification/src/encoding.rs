//! Conversion between UTF-8 and Compound Text, as far as this library is
//! concerned with it: what is made of the codec's output.
//!
//! The codec itself belongs to the native engine. It hands back a buffer, or
//! nothing where it could not convert. The functions here turn that into a
//! result, and check that text said to be UTF-8 is UTF-8.

use vstd::prelude::*;
use vstd::string::StringExecFns;
use vstd::utf8::{decode_utf8, encode_utf8, valid_utf8};

verus! {

/// The two encodings between which text is converted.
#[derive(Debug, Clone, Copy, PartialEq, Eq, Structural, Hash)]
pub enum Encoding {
    Utf8,
    CompoundText,
}

impl Encoding {
    /// The name of the encoding, as messages show it.
    pub open spec fn name_text(self) -> Seq<char> {
        match self {
            Encoding::Utf8 => "UTF-8"@,
            Encoding::CompoundText => "Compound Text"@,
        }
    }

    /// The name of the encoding, as messages show it.
    pub fn name(self) -> (r: &'static str)
        ensures
            r@ == self.name_text(),
    {
        match self {
            Encoding::Utf8 => "UTF-8",
            Encoding::CompoundText => "Compound Text",
        }
    }
}

/// A conversion that failed: in which direction, and, where the codec's
/// output was not UTF-8, the bytes of that output.
#[derive(Debug, Clone, PartialEq, Eq)]
pub struct ConvertError {
    convert_from: Encoding,
    convert_to: Encoding,
    inner: Option<Vec<u8>>,
}

impl ConvertError {
    /// The encoding that was converted from.
    pub closed spec fn source_encoding(&self) -> Encoding {
        self.convert_from
    }

    /// The encoding that was converted to.
    pub closed spec fn target_encoding(&self) -> Encoding {
        self.convert_to
    }

    /// The bytes that failed to decode as UTF-8, if that is what went wrong.
    pub closed spec fn failed_bytes(&self) -> Option<Seq<u8>> {
        match self.inner {
            Some(bytes) => Some(bytes@),
            None => None,
        }
    }

    /// The text of the message for a failed conversion between two
    /// encodings.
    pub open spec fn message_text(from: Encoding, to: Encoding) -> Seq<char> {
        "failed to convert from "@ + from.name_text() + " to "@ + to.name_text()
    }

    /// The error for a conversion from `convert_from` to `convert_to` that
    /// failed, with the bytes that were not UTF-8 if that is what went wrong.
    pub fn new(convert_from: Encoding, convert_to: Encoding, inner: Option<Vec<u8>>) -> (r: Self)
        ensures
            r.source_encoding() == convert_from,
            r.target_encoding() == convert_to,
            r.failed_bytes() == match inner {
                Some(bytes) => Some(bytes@),
                None => None,
            },
    {
        ConvertError { convert_from, convert_to, inner }
    }

    /// The encoding that was converted from.
    pub fn convert_from(&self) -> (r: Encoding)
        ensures
            r == self.source_encoding(),
    {
        self.convert_from
    }

    /// The encoding that was converted to.
    pub fn convert_to(&self) -> (r: Encoding)
        ensures
            r == self.target_encoding(),
    {
        self.convert_to
    }

    /// The bytes that failed to decode as UTF-8, if that is what went wrong.
    pub fn as_bytes(&self) -> (r: Option<&[u8]>)
        ensures
            r is Some <==> self.failed_bytes() is Some,
            r matches Some(bytes) ==> bytes@ == self.failed_bytes()->0,
    {
        match &self.inner {
            Some(bytes) => Some(bytes.as_slice()),
            None => None,
        }
    }

    /// The bytes that failed to decode as UTF-8, if that is what went wrong.
    pub fn into_bytes(self) -> (r: Option<Vec<u8>>)
        ensures
            r is Some <==> self.failed_bytes() is Some,
            r matches Some(bytes) ==> bytes@ == self.failed_bytes()->0,
    {
        self.inner
    }

    /// The message that says which conversion failed.
    pub fn message(&self) -> (r: String)
        ensures
            r@ == Self::message_text(self.source_encoding(), self.target_encoding()),
    {
        let mut text = String::from_str("failed to convert from ");
        text.append(self.convert_from.name());
        text.append(" to ");
        text.append(self.convert_to.name());
        text
    }
}

/// Checks that `bytes` are UTF-8 and makes a string of them, through
/// `String::from_utf8` of the standard library: the string holds exactly the
/// characters that the bytes encode, and bytes that are not UTF-8 come back
/// as they went in.
#[verifier::external_body]
fn string_from_utf8(bytes: Vec<u8>) -> (r: Result<String, Vec<u8>>)
    ensures
        r is Ok <==> valid_utf8(bytes@),
        r matches Ok(s) ==> s@ == decode_utf8(bytes@),
        r matches Err(rejected) ==> rejected@ == bytes@,
{
    match String::from_utf8(bytes) {
        Ok(s) => Ok(s),
        Err(e) => Err(e.into_bytes()),
    }
}

/// The bytes that encode a string in UTF-8 pass the check of `utf8_result`,
/// and decode to that string: the check neither refuses nor alters text that
/// the codec hands back well encoded.
pub proof fn lemma_encoded_text_is_accepted(text: Seq<char>)
    ensures
        valid_utf8(encode_utf8(text)),
        decode_utf8(encode_utf8(text)) == text,
{
    vstd::utf8::encode_utf8_valid_utf8(text);
    vstd::utf8::encode_utf8_decode_utf8(text);
}

/// The result of converting UTF-8 to Compound Text, from what the codec
/// handed back: its buffer, or an error if it handed back nothing.
pub fn compound_text_result(converted: Option<Vec<u8>>) -> (r: Result<Vec<u8>, ConvertError>)
    ensures
        match converted {
            Some(buffer) => r matches Ok(text) && text@ == buffer@,
            None => r matches Err(e) && e.source_encoding() == Encoding::Utf8
                && e.target_encoding() == Encoding::CompoundText && e.failed_bytes() is None,
        },
{
    match converted {
        Some(buffer) => Ok(buffer),
        None => Err(
            ConvertError {
                convert_from: Encoding::Utf8,
                convert_to: Encoding::CompoundText,
                inner: None,
            },
        ),
    }
}

/// The result of converting Compound Text to UTF-8, from what the codec
/// handed back: the string that its buffer encodes; an error with the buffer
/// if the buffer is not UTF-8; an error without bytes if the codec handed
/// back nothing.
pub fn utf8_result(converted: Option<Vec<u8>>) -> (r: Result<String, ConvertError>)
    ensures
        match converted {
            Some(buffer) => if valid_utf8(buffer@) {
                r matches Ok(s) && s@ == decode_utf8(buffer@)
            } else {
                r matches Err(e) && e.failed_bytes() == Some(buffer@)
            },
            None => r matches Err(e) && e.failed_bytes() is None,
        },
        r matches Err(e) ==> e.source_encoding() == Encoding::CompoundText && e.target_encoding()
            == Encoding::Utf8,
{
    match converted {
        Some(buffer) => match string_from_utf8(buffer) {
            Ok(s) => Ok(s),
            Err(rejected) => Err(
                ConvertError {
                    convert_from: Encoding::CompoundText,
                    convert_to: Encoding::Utf8,
                    inner: Some(rejected),
                },
            ),
        },
        None => Err(
            ConvertError {
                convert_from: Encoding::CompoundText,
                convert_to: Encoding::Utf8,
                inner: None,
            },
        ),
    }
}

} // verus!
