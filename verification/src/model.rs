//! The mathematical model of the gateway's core: what a listing says of
//! the engines, what an engine's output stands for, the values that the
//! collaborators hand back to a lookup, the stages a lookup passes
//! through, and the transition between them. Everything here is
//! specification; the executable types elsewhere in the crate are tied to
//! it by their views.

use vstd::prelude::*;
use vstd::utf8::*;

verus! {

/// Text as the model sees it.
pub type Text = Seq<char>;

/// What the cache store hands back for a read.
pub enum CacheRead {
    /// The store holds this value under the key.
    Hit(Text),
    /// The store holds nothing under the key.
    Miss,
    /// The store could not be asked.
    Failure,
}

/// What an engine hands back for one invocation.
pub enum EngineReply {
    /// The bytes the engine printed.
    Output(Seq<u8>),
    /// The engine could not be started.
    Failure,
}

/// What the cache store hands back for a write.
pub enum CacheWrite {
    /// The store took the value.
    Stored,
    /// The store could not be asked.
    Failure,
}

/// What a collaborator hands back to the lookup.
pub enum Event {
    Read(CacheRead),
    Engine(EngineReply),
    Write(CacheWrite),
}

/// What the lookup wants done next.
pub enum Action {
    /// Read the cache under (language, word).
    Read { language: Text, word: Text },
    /// Invoke one engine on (language, word).
    Invoke { engine: Text, language: Text, word: Text },
    /// Write the translation to the cache under (language, word).
    Write { language: Text, word: Text, translation: Text },
    /// Hand the answer to the caller; nothing more is to be done.
    Answer(Option<Text>),
}

/// Where the search through the catalog stands.
pub enum Attempt {
    /// The engine at this catalog position is to be asked.
    Ask(nat),
    /// An engine produced this translation.
    Found(Text),
    /// No engine is left to ask.
    Exhausted,
}

/// Where a lookup stands.
pub enum Stage {
    /// The cache is being read.
    Reading,
    /// The engine at this catalog position is being asked.
    Trying(nat),
    /// The fresh translation is being written to the cache.
    Writing(Text),
    /// The lookup is over, with this answer.
    Finished(Option<Text>),
}

/// The texts that a sequence of strings holds, in order.
pub open spec fn names(strings: Seq<String>) -> Seq<Text> {
    Seq::new(strings.len(), |i: int| strings[i]@)
}

/// Whether a word of the engine listing names an engine. The listing
/// marks its rows with words that begin with a star; those name nothing.
pub open spec fn is_engine_name(word: Text) -> bool {
    word.len() > 0 && word[0] != '*'
}

/// The words of a listing that name engines, in the order of the listing.
pub open spec fn engine_names(words: Seq<Text>) -> Seq<Text> {
    words.filter(|word: Text| is_engine_name(word))
}

/// The names of `engines` in order, each kept where it occurs first.
pub open spec fn distinct(engines: Seq<Text>) -> Seq<Text>
    decreases engines.len(),
{
    if engines.len() == 0 {
        engines
    } else {
        let before = distinct(engines.drop_last());
        if before.contains(engines.last()) {
            before
        } else {
            before.push(engines.last())
        }
    }
}

/// Among the distinct names no name stands twice.
pub proof fn distinct_has_no_duplicates(engines: Seq<Text>)
    ensures
        distinct(engines).no_duplicates(),
    decreases engines.len(),
{
    if engines.len() > 0 {
        distinct_has_no_duplicates(engines.drop_last());
    }
}

/// The distinct names are the names of `engines`, each of them and no
/// other.
pub proof fn distinct_keeps_every_name(engines: Seq<Text>, name: Text)
    ensures
        distinct(engines).contains(name) <==> engines.contains(name),
    decreases engines.len(),
{
    if engines.len() > 0 {
        let before = engines.drop_last();
        distinct_keeps_every_name(before, name);
        distinct_keeps_every_name(before, engines.last());
        assert(engines =~= before.push(engines.last()));
        if distinct(engines).contains(name) && name != engines.last() {
            let i = choose|i: int| 0 <= i < distinct(engines).len() && distinct(engines)[i] == name;
            assert(distinct(before)[i] == name);
        }
        if engines.contains(name) && name != engines.last() {
            let i = choose|i: int| 0 <= i < engines.len() && engines[i] == name;
            assert(before[i] == name);
            let j = choose|j: int| 0 <= j < distinct(before).len() && distinct(before)[j] == name;
            assert(distinct(engines)[j] == name);
        }
        if name == engines.last() {
            assert(engines[engines.len() - 1] == name);
            if !distinct(before).contains(name) {
                assert(distinct(engines)[distinct(before).len() as int] == name);
            }
        }
    }
}

/// The translation that an engine's output stands for: the decoded text
/// if the output is non-empty, valid UTF-8; nothing otherwise.
pub open spec fn translation_of(output: Seq<u8>) -> Option<Text> {
    if output.len() > 0 && valid_utf8(output) {
        Some(decode_utf8(output))
    } else {
        None
    }
}

/// An empty text is never a translation: whatever an engine's output
/// stands for holds at least one character.
pub proof fn translation_is_never_empty(output: Seq<u8>)
    ensures
        translation_of(output) matches Some(translation) ==> translation.len() > 0,
{
    if output.len() > 0 && valid_utf8(output) {
        assert(decode_utf8(output).len() > 0);
    }
}

/// The translation that an engine's reply stands for. A failure to start
/// the engine counts like an output that holds no translation.
pub open spec fn translation_in(reply: EngineReply) -> Option<Text> {
    match reply {
        EngineReply::Output(bytes) => translation_of(bytes),
        EngineReply::Failure => None,
    }
}

/// The arguments with which an engine is invoked to translate `word` into
/// `language`: `-e`, the engine, `-b`, the language behind a colon, and
/// the word.
pub open spec fn invocation(engine: Text, language: Text, word: Text) -> Seq<Text> {
    seq![seq!['-', 'e'], engine, seq!['-', 'b'], seq![':'] + language, word]
}

/// The arguments with which the engines are listed: `-S`.
pub open spec fn listing() -> Seq<Text> {
    seq![seq!['-', 'S']]
}

/// The search over a catalog of `len` engines begins at its first engine,
/// or is over at once if there is none.
pub open spec fn first_attempt(len: nat) -> Attempt {
    if len > 0 {
        Attempt::Ask(0)
    } else {
        Attempt::Exhausted
    }
}

/// The search after the engine at `position` has answered with `outcome`:
/// a translation ends it, and otherwise the next engine in catalog order
/// is asked, if there is one.
pub open spec fn next_attempt(len: nat, position: nat, outcome: Option<Text>) -> Attempt {
    match outcome {
        Some(translation) => Attempt::Found(translation),
        None => if position + 1 < len {
            Attempt::Ask(position + 1)
        } else {
            Attempt::Exhausted
        },
    }
}

/// The stage a lookup is in once its search stands at `attempt`.
pub open spec fn stage_after(attempt: Attempt) -> Stage {
    match attempt {
        Attempt::Ask(position) => Stage::Trying(position),
        Attempt::Found(translation) => Stage::Writing(translation),
        Attempt::Exhausted => Stage::Finished(None),
    }
}

/// One lookup of `word` in `language` against a catalog of engines.
pub struct Lookup {
    pub catalog: Seq<Text>,
    pub language: Text,
    pub word: Text,
    pub stage: Stage,
}

impl Lookup {
    /// A lookup never waits for an engine that the catalog does not hold.
    pub open spec fn wf(self) -> bool {
        self.stage matches Stage::Trying(position) ==> position < self.catalog.len()
    }

    /// A lookup begins by reading the cache.
    pub open spec fn start(catalog: Seq<Text>, language: Text, word: Text) -> Lookup {
        Lookup { catalog, language, word, stage: Stage::Reading }
    }

    /// The same lookup at another stage.
    pub open spec fn at(self, stage: Stage) -> Lookup {
        Lookup { stage, ..self }
    }

    /// What the lookup wants done in its present stage.
    pub open spec fn pending(self) -> Action {
        match self.stage {
            Stage::Reading => Action::Read { language: self.language, word: self.word },
            Stage::Trying(position) => Action::Invoke {
                engine: self.catalog[position as int],
                language: self.language,
                word: self.word,
            },
            Stage::Writing(translation) => Action::Write {
                language: self.language,
                word: self.word,
                translation,
            },
            Stage::Finished(answer) => Action::Answer(answer),
        }
    }

    /// The lookup after `event`.
    ///
    /// A hit ends the lookup with the cached value; a miss and a failed
    /// read both begin the search. While searching, each engine reply
    /// moves the search on. Once the write has been attempted, whether or
    /// not the store took it, the lookup ends with the fresh translation.
    /// An event that does not answer the pending action changes nothing.
    pub open spec fn step(self, event: Event) -> Lookup {
        match (self.stage, event) {
            (Stage::Reading, Event::Read(CacheRead::Hit(value))) => self.at(
                Stage::Finished(Some(value)),
            ),
            (Stage::Reading, Event::Read(_)) => self.at(
                stage_after(first_attempt(self.catalog.len())),
            ),
            (Stage::Trying(position), Event::Engine(reply)) => self.at(
                stage_after(next_attempt(self.catalog.len(), position, translation_in(reply))),
            ),
            (Stage::Writing(translation), Event::Write(_)) => self.at(
                Stage::Finished(Some(translation)),
            ),
            _ => self,
        }
    }

    /// Whether the lookup is over.
    pub open spec fn finished(self) -> bool {
        self.stage is Finished
    }

    /// An upper bound on the number of events the lookup still takes.
    pub open spec fn remaining(self) -> nat {
        match self.stage {
            Stage::Reading => self.catalog.len() + 2,
            Stage::Trying(position) => if position < self.catalog.len() {
                (self.catalog.len() - position + 1) as nat
            } else {
                2
            },
            Stage::Writing(_) => 1,
            Stage::Finished(_) => 0,
        }
    }
}

} // verus!
