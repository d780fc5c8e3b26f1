//! The one route of the gateway, `/translate/<word>/to/<language>`, and
//! the replies that a request is answered with.

use vstd::prelude::*;
use vstd::string::*;

verus! {

/// What every path of the route begins with: `/translate/`.
pub open spec fn head() -> Seq<char> {
    seq!['/', 't', 'r', 'a', 'n', 's', 'l', 'a', 't', 'e', '/']
}

/// What stands between the word and the language: `/to/`.
pub open spec fn joint() -> Seq<char> {
    seq!['/', 't', 'o', '/']
}

/// A segment of a path holds no slash.
pub open spec fn is_segment(text: Seq<char>) -> bool {
    forall|i: int| 0 <= i < text.len() ==> text[i] != '/'
}

/// The path that asks for `word` to be translated into `language`.
pub open spec fn path_of(word: Seq<char>, language: Seq<char>) -> Seq<char> {
    head() + word + joint() + language
}

/// Whether `path` asks for `word` to be translated into `language`.
pub open spec fn asks_for(path: Seq<char>, word: Seq<char>, language: Seq<char>) -> bool {
    is_segment(word) && is_segment(language) && path == path_of(word, language)
}

/// What a well-formed request asks for.
#[derive(Debug, PartialEq, Eq)]
pub struct Route {
    pub word: String,
    pub language: String,
}

/// The characters of `text`, in order.
fn chars_of(text: &str) -> (chars: Vec<char>)
    ensures
        chars@ == text@,
{
    let mut chars: Vec<char> = Vec::new();
    for c in it: text.chars()
        invariant
            chars@ == it.seq().take(it.index() as int),
            it.seq() == text@,
    {
        chars.push(c);
    }
    chars
}

/// Whether `pattern` stands in `chars` at position `at`.
fn stands_at(chars: &Vec<char>, at: usize, pattern: &Vec<char>) -> (found: bool)
    requires
        at <= chars.len(),
    ensures
        found == (at + pattern.len() <= chars.len() && chars@.subrange(
            at as int,
            at + pattern.len(),
        ) == pattern@),
{
    if chars.len() - at < pattern.len() {
        return false;
    }
    let mut i: usize = 0;
    while i < pattern.len()
        invariant
            i <= pattern.len(),
            at + pattern.len() <= chars.len(),
            forall|j: int| 0 <= j < i ==> chars[at + j] == pattern[j],
        decreases pattern.len() - i,
    {
        if chars[at + i] != pattern[i] {
            assert(chars@.subrange(at as int, at + pattern.len())[i as int] != pattern@[i as int]);
            return false;
        }
        i += 1;
    }
    assert(chars@.subrange(at as int, at + pattern.len()) =~= pattern@);
    true
}

/// The position of the first slash in `chars` at or after `from`, or the
/// length of `chars` if there is none.
fn next_slash(chars: &Vec<char>, from: usize) -> (at: usize)
    requires
        from <= chars.len(),
    ensures
        from <= at <= chars.len(),
        forall|i: int| from <= i < at ==> chars[i] != '/',
        at < chars.len() ==> chars[at as int] == '/',
{
    let mut at: usize = from;
    while at < chars.len() && chars[at] != '/'
        invariant
            from <= at <= chars.len(),
            forall|i: int| from <= i < at ==> chars[i] != '/',
        decreases chars.len() - at,
    {
        at += 1;
    }
    at
}

/// Reads a request path.
///
/// A path of the form `/translate/<word>/to/<language>`, in which
/// neither the word nor the language holds a slash, asks for that word
/// in that language; either of the two may be empty. Every other path
/// asks for nothing and is to be rejected.
pub fn parse_path(path: &str) -> (route: Option<Route>)
    ensures
        match route {
            Some(found) => asks_for(path@, found.word@, found.language@),
            None => forall|word: Seq<char>, language: Seq<char>|
                !#[trigger] asks_for(path@, word, language),
        },
{
    proof {
        reveal_strlit("/translate/");
        reveal_strlit("/to/");
    }
    let chars = chars_of(path);
    let head = chars_of("/translate/");
    let joint = chars_of("/to/");
    assert(head@ =~= self::head());
    assert(joint@ =~= self::joint());
    let n: usize = chars.len();
    if !stands_at(&chars, 0, &head) {
        assert forall|word: Seq<char>, language: Seq<char>|
            !#[trigger] asks_for(path@, word, language) by {
            if asks_for(path@, word, language) {
                assert(path@.subrange(0, 11) =~= self::head());
            }
        }
        return None;
    }
    let end: usize = next_slash(&chars, 11);
    if !stands_at(&chars, end, &joint) {
        assert forall|word: Seq<char>, language: Seq<char>|
            !#[trigger] asks_for(path@, word, language) by {
            if asks_for(path@, word, language) {
                lemma_word_ends_at_first_slash(path@, word, language, end as int);
                assert(path@.subrange(end as int, end + 4) =~= self::joint());
            }
        }
        return None;
    }
    let last: usize = next_slash(&chars, end + 4);
    if last < n {
        assert forall|word: Seq<char>, language: Seq<char>|
            !#[trigger] asks_for(path@, word, language) by {
            if asks_for(path@, word, language) {
                lemma_word_ends_at_first_slash(path@, word, language, end as int);
                assert(language[last - end - 4] == path@[last as int]);
            }
        }
        return None;
    }
    let word = path.substring_char(11, end).to_owned();
    let language = path.substring_char(end + 4, n).to_owned();
    assert(path@ =~= path_of(word@, language@));
    Some(Route { word, language })
}

/// In a path of the route, the word ends where the first slash behind
/// the head stands.
proof fn lemma_word_ends_at_first_slash(
    path: Seq<char>,
    word: Seq<char>,
    language: Seq<char>,
    end: int,
)
    requires
        asks_for(path, word, language),
        11 <= end <= path.len(),
        forall|i: int| 11 <= i < end ==> path[i] != '/',
        end < path.len() ==> path[end] == '/',
    ensures
        end == 11 + word.len(),
        path.len() == 15 + word.len() + language.len(),
{
    let stop: int = 11 + word.len() as int;
    assert(path[stop] == joint()[0]);
    if end < stop {
        assert(path[end] == word[end - 11]);
    }
}

/// A path asks for at most one word in at most one language.
pub proof fn route_is_unique(
    path: Seq<char>,
    word: Seq<char>,
    language: Seq<char>,
    other_word: Seq<char>,
    other_language: Seq<char>,
)
    requires
        asks_for(path, word, language),
        asks_for(path, other_word, other_language),
    ensures
        word == other_word,
        language == other_language,
{
    let end: int = 11 + word.len() as int;
    assert(path[end] == joint()[0]);
    assert forall|i: int| 11 <= i < end implies path[i] != '/' by {
        assert(path[i] == word[i - 11]);
    }
    lemma_word_ends_at_first_slash(path, other_word, other_language, end);
    assert(word =~= path.subrange(11, end));
    assert(other_word =~= path.subrange(11, end));
    assert(language =~= path.subrange(end + 4, path.len() as int));
    assert(other_language =~= path.subrange(end + 4, path.len() as int));
}

/// What a request is answered with: a status and a body of plain text.
#[derive(Debug, PartialEq, Eq)]
pub struct Reply {
    pub status: u16,
    pub body: String,
}

/// The body that tells a caller that no engine had a translation.
pub open spec fn no_translation() -> Seq<char> {
    seq![
        'n', 'o', ' ', 't', 'r', 'a', 'n', 's', 'l', 'a', 't', 'i', 'o', 'n', ' ',
        'a', 'v', 'a', 'i', 'l', 'a', 'b', 'l', 'e',
    ]
}

/// The body that tells a caller that the request was not understood.
pub open spec fn bad_request() -> Seq<char> {
    seq!['b', 'a', 'd', ' ', 'r', 'e', 'q', 'u', 'e', 's', 't']
}

/// The reply to a request whose lookup ended with `answer`: the
/// translation with status 200, or status 404 where there is none.
pub fn reply(answer: Option<String>) -> (reply: Reply)
    ensures
        match answer {
            Some(translation) => reply.status == 200 && reply.body@ == translation@,
            None => reply.status == 404 && reply.body@ == no_translation(),
        },
{
    match answer {
        Some(translation) => Reply { status: 200, body: translation },
        None => {
            proof {
                reveal_strlit("no translation available");
            }
            let body = "no translation available".to_owned();
            assert(body@ =~= no_translation());
            Reply { status: 404, body }
        },
    }
}

/// The reply to a request whose path asks for nothing: status 422, set
/// apart from the status of a lookup that found no translation.
pub fn rejection() -> (reply: Reply)
    ensures
        reply.status == 422,
        reply.body@ == bad_request(),
{
    proof {
        reveal_strlit("bad request");
    }
    let body = "bad request".to_owned();
    assert(body@ =~= bad_request());
    Reply { status: 422, body }
}

} // verus!
