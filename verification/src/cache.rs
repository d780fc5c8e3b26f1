//! The commands by which the cache store is read and written.
//!
//! The store keeps one hash per language, with the word as the field and
//! the translation as its value. The commands are built here; sending
//! them is the caller's part.

use vstd::prelude::*;
use vstd::string::*;
use vstd::utf8::*;

verus! {

/// `redis::Cmd`, a command in the making. The type is made known to the
/// verifier as it is; nothing inside it is.
#[verifier::external_type_specification]
#[verifier::external_body]
pub struct ExCmd(redis::Cmd);

/// The arguments that a command holds, the command's name first, each as
/// the bytes that go over the wire: what `redis::Cmd::args_iter` walks
/// through.
pub uninterp spec fn arguments_of(command: redis::Cmd) -> Seq<Seq<u8>>;

/// A command of the given name and no further argument, made by
/// `redis::cmd`.
///
/// Trusted: the new command holds one argument, the name's bytes.
#[verifier::external_body]
fn command(name: &str) -> (command: redis::Cmd)
    ensures
        arguments_of(command) == seq![encode_utf8(name@)],
{
    redis::cmd(name)
}

/// Appends a text argument to a command with `redis::Cmd::arg`.
///
/// Trusted: the command holds what it held before, and then the bytes of
/// the text as one more argument.
#[verifier::external_body]
fn push(command: &mut redis::Cmd, argument: &str)
    ensures
        arguments_of(*final(command)) == arguments_of(*old(command)).push(encode_utf8(argument@)),
{
    command.arg(argument);
}

/// The arguments of the command that reads the translation of `word` in
/// `language`: `HGET`, the language, the word.
pub open spec fn read_arguments(language: Seq<char>, word: Seq<char>) -> Seq<Seq<u8>> {
    seq![encode_utf8(seq!['H', 'G', 'E', 'T']), encode_utf8(language), encode_utf8(word)]
}

/// The arguments of the command that stores `translation` as the
/// translation of `word` in `language`: `HSET`, the language, the word,
/// the translation.
pub open spec fn write_arguments(
    language: Seq<char>,
    word: Seq<char>,
    translation: Seq<char>,
) -> Seq<Seq<u8>> {
    seq![
        encode_utf8(seq!['H', 'S', 'E', 'T']),
        encode_utf8(language),
        encode_utf8(word),
        encode_utf8(translation),
    ]
}

/// The command that reads the translation of `word` in `language`.
pub fn read_command(language: &str, word: &str) -> (command: redis::Cmd)
    ensures
        arguments_of(command) == read_arguments(language@, word@),
{
    proof {
        reveal_strlit("HGET");
        assert("HGET"@ =~= seq!['H', 'G', 'E', 'T']);
    }
    let mut built = command("HGET");
    push(&mut built, language);
    push(&mut built, word);
    assert(arguments_of(built) =~= read_arguments(language@, word@));
    built
}

/// The command that stores `translation` as the translation of `word` in
/// `language`.
pub fn write_command(language: &str, word: &str, translation: &str) -> (command: redis::Cmd)
    ensures
        arguments_of(command) == write_arguments(language@, word@, translation@),
{
    proof {
        reveal_strlit("HSET");
        assert("HSET"@ =~= seq!['H', 'S', 'E', 'T']);
    }
    let mut built = command("HSET");
    push(&mut built, language);
    push(&mut built, word);
    push(&mut built, translation);
    assert(arguments_of(built) =~= write_arguments(language@, word@, translation@));
    built
}

} // verus!
