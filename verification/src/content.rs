//! Decoding the contents of a repository file as the hosting platform sends them.

use crate::models::FileContent;
use vstd::prelude::*;
use vstd::utf8::{decode_utf8, encode_utf8, valid_utf8};

verus! {

/// `base64::DecodeError`, which says why a text is no base64. Nothing inside it
/// is visible here.
#[verifier::external_type_specification]
#[verifier::external_body]
pub struct ExDecodeError(base64::DecodeError);

/// The bytes that standard base64 text with padding stands for, and nothing
/// where the text is no such base64.
pub uninterp spec fn base64_decoded(input: Seq<u8>) -> Option<Seq<u8>>;

/// `base64::Engine::decode` of the engine `general_purpose::STANDARD`. What is
/// decoded is a function of the input alone; nothing more is claimed of it.
#[verifier::external_body]
pub(crate) fn base64_decode(input: &Vec<u8>) -> (r: Result<Vec<u8>, base64::DecodeError>)
    ensures
        match r {
            Ok(bytes) => base64_decoded(input@) == Some(bytes@),
            Err(_) => base64_decoded(input@) is None,
        },
{
    base64::Engine::decode(&base64::engine::general_purpose::STANDARD, input)
}

/// `String::from_utf8`: the text that the bytes encode, where they are UTF-8.
#[verifier::external_body]
pub(crate) fn utf8_text(bytes: Vec<u8>) -> (r: Option<String>)
    ensures
        match r {
            Some(text) => valid_utf8(bytes@) && text@ == decode_utf8(bytes@),
            None => !valid_utf8(bytes@),
        },
{
    String::from_utf8(bytes).ok()
}

/// Why the contents of a file cannot be read.
#[derive(Debug, Clone, Copy, PartialEq, Eq, Structural)]
pub enum ContentError {
    /// The contents are said to be base64 and are not.
    InvalidBase64,
    /// The decoded contents are not UTF-8 text.
    InvalidUtf8,
}

/// The bytes of `bytes` other than line feeds, in order.
pub open spec fn without_line_feeds(bytes: Seq<u8>) -> Seq<u8>
    decreases bytes.len(),
{
    if bytes.len() == 0 {
        Seq::<u8>::empty()
    } else if bytes.last() == 10 {
        without_line_feeds(bytes.drop_last())
    } else {
        without_line_feeds(bytes.drop_last()).push(bytes.last())
    }
}

/// The text that decoded bytes stand for.
pub open spec fn text_of_decoded(decoded: Option<Seq<u8>>) -> Result<Seq<char>, ContentError> {
    match decoded {
        None => Err(ContentError::InvalidBase64),
        Some(bytes) => if valid_utf8(bytes) {
            Ok(decode_utf8(bytes))
        } else {
            Err(ContentError::InvalidUtf8)
        },
    }
}

/// Drops the line feeds from `bytes`.
pub fn strip_line_feeds(bytes: &[u8]) -> (out: Vec<u8>)
    ensures
        out@ == without_line_feeds(bytes@),
{
    let mut out: Vec<u8> = Vec::new();
    let mut i: usize = 0;
    while i < bytes.len()
        invariant
            i <= bytes.len(),
            out@ == without_line_feeds(bytes@.take(i as int)),
        decreases bytes.len() - i,
    {
        proof {
            assert(bytes@.take(i + 1).drop_last() =~= bytes@.take(i as int));
        }
        if bytes[i] != 10 {
            out.push(bytes[i]);
        }
        i += 1;
    }
    proof {
        assert(bytes@.take(i as int) =~= bytes@);
    }
    out
}

/// Reads decoded bytes as text.
pub fn text_from_decoded(decoded: Option<Vec<u8>>) -> (r: Result<String, ContentError>)
    ensures
        match r {
            Ok(text) => text_of_decoded(
                match decoded {
                    Some(bytes) => Some(bytes@),
                    None => None,
                },
            ) == Ok::<Seq<char>, ContentError>(text@),
            Err(e) => text_of_decoded(
                match decoded {
                    Some(bytes) => Some(bytes@),
                    None => None,
                },
            ) == Err::<Seq<char>, ContentError>(e),
        },
{
    match decoded {
        None => Err(ContentError::InvalidBase64),
        Some(bytes) => match utf8_text(bytes) {
            Some(text) => Ok(text),
            None => Err(ContentError::InvalidUtf8),
        },
    }
}

/// The text of a file: its contents as they are, unless they are said to be
/// encoded as `base64`; then the text that the contents, line feeds left out,
/// stand for.
pub open spec fn file_text_of(file: FileContent) -> Result<Seq<char>, ContentError> {
    if file.encoding@ == "base64"@ {
        text_of_decoded(base64_decoded(without_line_feeds(encode_utf8(file.content@))))
    } else {
        Ok(file.content@)
    }
}

/// Reads the text of a file.
pub fn file_text(file: &FileContent) -> (r: Result<String, ContentError>)
    ensures
        match r {
            Ok(text) => file_text_of(*file) == Ok::<Seq<char>, ContentError>(text@),
            Err(e) => file_text_of(*file) == Err::<Seq<char>, ContentError>(e),
        },
{
    let base64 = "base64".to_owned();
    if file.encoding == base64 {
        let input = strip_line_feeds(file.content.as_str().as_bytes());
        let decoded = match base64_decode(&input) {
            Ok(bytes) => Some(bytes),
            Err(_) => None,
        };
        text_from_decoded(decoded)
    } else {
        Ok(file.content.clone())
    }
}

} // verus!
