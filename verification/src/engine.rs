//! What is handed to a translation engine, and what is made of its output.

use crate::model;
use crate::model::names;
use vstd::prelude::*;
use vstd::string::*;
use vstd::utf8::*;

verus! {

/// The arguments to invoke `engine` with, to have `word` translated into
/// `language`.
pub fn arguments(engine: &str, language: &str, word: &str) -> (args: Vec<String>)
    ensures
        names(args@) == model::invocation(engine@, language@, word@),
{
    proof {
        reveal_strlit("-e");
        reveal_strlit("-b");
        reveal_strlit(":");
    }
    let mut args: Vec<String> = Vec::new();
    args.push("-e".to_owned());
    args.push(engine.to_owned());
    args.push("-b".to_owned());
    args.push(":".to_owned().concat(language));
    args.push(word.to_owned());
    assert(names(args@) =~= model::invocation(engine@, language@, word@)) by {
        assert("-e"@ =~= seq!['-', 'e']);
        assert("-b"@ =~= seq!['-', 'b']);
        assert(":"@ =~= seq![':']);
    }
    args
}

/// The arguments to have the engines listed.
pub fn listing_arguments() -> (args: Vec<String>)
    ensures
        names(args@) == model::listing(),
{
    proof {
        reveal_strlit("-S");
    }
    let mut args: Vec<String> = Vec::new();
    args.push("-S".to_owned());
    assert(names(args@) =~= model::listing()) by {
        assert("-S"@ =~= seq!['-', 'S']);
    }
    args
}

/// Decodes `bytes` as UTF-8 with `String::from_utf8`.
///
/// Trusted: the result is present exactly when the bytes are valid UTF-8,
/// and the string then consists of exactly those bytes.
#[verifier::external_body]
pub(crate) fn decode(bytes: Vec<u8>) -> (text: Option<String>)
    ensures
        text is Some <==> valid_utf8(bytes@),
        text matches Some(s) ==> encode_utf8(s@) == bytes@,
{
    match String::from_utf8(bytes) {
        Ok(text) => Some(text),
        Err(_) => None,
    }
}

/// The translation in an engine's output, if it holds one.
///
/// An engine that prints nothing has no translation to offer, and output
/// that is not valid UTF-8 is no text at all; both count as failure.
pub fn read_output(output: Vec<u8>) -> (translation: Option<String>)
    ensures
        translation.deep_view() == model::translation_of(output@),
{
    if output.len() == 0 {
        None
    } else {
        let text = decode(output);
        proof {
            if text is Some {
                encode_utf8_decode_utf8(text->0@);
            }
        }
        text
    }
}

} // verus!
