//! Whole runs of a lookup, and what holds of every one of them.
//!
//! A [`World`] fixes how the collaborators answer during one lookup. The
//! run of a lookup in a world is the sequence of requests that the lookup
//! makes until it is over, together with its answer. The theorems below
//! say what that run is, for every catalog, every key and every world.

use crate::model::{
    translation_in, Action, CacheRead, CacheWrite, EngineReply, Event, Lookup, Stage, Text,
};
use vstd::prelude::*;

verus! {

/// How the collaborators answer during one lookup.
pub struct World {
    /// What the cache store answers to the read.
    pub read: CacheRead,
    /// What the engine at each catalog position answers when invoked.
    pub engines: Seq<EngineReply>,
    /// What the cache store answers to the write.
    pub write: CacheWrite,
}

impl World {
    /// The event with which the world answers the pending action of a
    /// lookup in `stage`.
    pub open spec fn reply(self, stage: Stage) -> Event {
        match stage {
            Stage::Reading => Event::Read(self.read),
            Stage::Trying(position) => Event::Engine(self.engines[position as int]),
            _ => Event::Write(self.write),
        }
    }

    /// The world holds an answer for each engine of `catalog`.
    pub open spec fn covers(self, catalog: Seq<Text>) -> bool {
        self.engines.len() == catalog.len()
    }

    /// No engine at a position in `from..to` produces a translation.
    pub open spec fn all_fail(self, from: int, to: int) -> bool {
        forall|j: int| from <= j < to ==> translation_in(#[trigger] self.engines[j]) is None
    }
}

/// What a lookup did: the requests it made of its collaborators, in
/// order, and the answer it ended with.
pub struct Run {
    pub requests: Seq<Action>,
    pub answer: Option<Text>,
}

/// The run of `lookup` from its present stage on, in `world`.
pub open spec fn run(lookup: Lookup, world: World) -> Run
    decreases lookup.remaining(),
{
    match lookup.stage {
        Stage::Finished(answer) => Run { requests: Seq::empty(), answer },
        _ => {
            let rest = run(lookup.step(world.reply(lookup.stage)), world);
            Run { requests: seq![lookup.pending()] + rest.requests, answer: rest.answer }
        },
    }
}

/// A lookup begins well-formed.
pub proof fn lookup_starts_well_formed(catalog: Seq<Text>, language: Text, word: Text)
    ensures
        Lookup::start(catalog, language, word).wf(),
{
}

/// Every event leaves a well-formed lookup well-formed: it never comes
/// to wait for an engine that the catalog does not hold.
pub proof fn lookup_stays_well_formed(lookup: Lookup, event: Event)
    requires
        lookup.wf(),
    ensures
        lookup.step(event).wf(),
{
}

/// Every lookup comes to its end. From its start it makes at most one
/// read, one invocation for each engine of the catalog and one write;
/// from any later stage, at most what is left of these.
pub proof fn run_is_bounded(lookup: Lookup, world: World)
    ensures
        run(lookup, world).requests.len() <= lookup.remaining(),
    decreases lookup.remaining(),
{
    if !(lookup.stage is Finished) {
        run_is_bounded(lookup.step(world.reply(lookup.stage)), world);
    }
}

/// The invocations of the engines at the catalog positions `from..to`, in
/// catalog order.
pub open spec fn invocations(lookup: Lookup, from: int, to: int) -> Seq<Action> {
    Seq::new(
        (to - from) as nat,
        |j: int|
            Action::Invoke {
                engine: lookup.catalog[from + j],
                language: lookup.language,
                word: lookup.word,
            },
    )
}

/// The read that every lookup begins with.
pub open spec fn read_request(lookup: Lookup) -> Action {
    Action::Read { language: lookup.language, word: lookup.word }
}

/// The write of `translation` under the lookup's key.
pub open spec fn write_request(lookup: Lookup, translation: Text) -> Action {
    Action::Write { language: lookup.language, word: lookup.word, translation }
}

/// A search that stands at position `from` and meets its first
/// translation at position `at` invokes the engines from `from` up to
/// `at`, writes that translation and answers with it.
proof fn lemma_search_finds(lookup: Lookup, world: World, from: int, at: int, translation: Text)
    requires
        world.covers(lookup.catalog),
        lookup.stage == Stage::Trying(from as nat),
        0 <= from <= at < lookup.catalog.len(),
        world.all_fail(from, at),
        translation_in(world.engines[at]) == Some(translation),
    ensures
        run(lookup, world) == (Run {
            requests: invocations(lookup, from, at + 1).push(write_request(lookup, translation)),
            answer: Some(translation),
        }),
    decreases at - from,
{
    let next = lookup.step(world.reply(lookup.stage));
    if from == at {
        assert(next.stage == Stage::Writing(translation));
        let last = next.step(world.reply(next.stage));
        assert(last.stage == Stage::Finished(Some(translation)));
        assert(run(last, world).requests =~= Seq::<Action>::empty());
        assert(run(next, world).requests =~= seq![write_request(lookup, translation)]);
    } else {
        assert(translation_in(world.engines[from]) is None);
        assert(next.stage == Stage::Trying((from + 1) as nat));
        lemma_search_finds(next, world, from + 1, at, translation);
    }
    assert(run(lookup, world).requests =~= invocations(lookup, from, at + 1).push(
        write_request(lookup, translation),
    ));
}

/// A search that stands at position `from` and meets no translation up to
/// the end of the catalog invokes every engine from `from` on, writes
/// nothing and answers with nothing.
proof fn lemma_search_exhausts(lookup: Lookup, world: World, from: int)
    requires
        world.covers(lookup.catalog),
        lookup.stage == Stage::Trying(from as nat),
        0 <= from < lookup.catalog.len(),
        world.all_fail(from, lookup.catalog.len() as int),
    ensures
        run(lookup, world) == (Run {
            requests: invocations(lookup, from, lookup.catalog.len() as int),
            answer: None,
        }),
    decreases lookup.catalog.len() - from,
{
    let len = lookup.catalog.len() as int;
    let next = lookup.step(world.reply(lookup.stage));
    assert(translation_in(world.engines[from]) is None);
    if from + 1 < len {
        assert(next.stage == Stage::Trying((from + 1) as nat));
        lemma_search_exhausts(next, world, from + 1);
    } else {
        assert(next.stage == Stage::Finished(None));
        assert(run(next, world).requests =~= Seq::<Action>::empty());
    }
    assert(run(lookup, world).requests =~= invocations(lookup, from, len));
}

/// A value that the cache holds is the answer, and nothing but the read
/// is asked of anyone: no engine is invoked and nothing is written.
pub proof fn hit_is_answered_from_the_cache(
    catalog: Seq<Text>,
    language: Text,
    word: Text,
    world: World,
    value: Text,
)
    requires
        world.read == CacheRead::Hit(value),
    ensures
        run(Lookup::start(catalog, language, word), world) == (Run {
            requests: seq![read_request(Lookup::start(catalog, language, word))],
            answer: Some(value),
        }),
{
    let lookup = Lookup::start(catalog, language, word);
    let next = lookup.step(world.reply(lookup.stage));
    assert(next.stage == Stage::Finished(Some(value)));
    assert(run(next, world).requests =~= Seq::<Action>::empty());
}

/// When the cache has no value to offer, the answer is the translation of
/// the first engine in catalog order that produces one. The engines
/// before it are invoked in order, then that engine, and no engine after
/// it; the translation is then written to the cache, once.
///
/// This holds whether the read missed or failed, and whether or not the
/// store takes the write.
pub proof fn first_translation_is_the_answer(
    catalog: Seq<Text>,
    language: Text,
    word: Text,
    world: World,
    at: int,
    translation: Text,
)
    requires
        world.covers(catalog),
        !(world.read is Hit),
        0 <= at < catalog.len(),
        world.all_fail(0, at),
        translation_in(world.engines[at]) == Some(translation),
    ensures
        run(Lookup::start(catalog, language, word), world) == ({
            let lookup = Lookup::start(catalog, language, word);
            Run {
                requests: (seq![read_request(lookup)] + invocations(lookup, 0, at + 1)).push(
                    write_request(lookup, translation),
                ),
                answer: Some(translation),
            }
        }),
{
    let lookup = Lookup::start(catalog, language, word);
    let next = lookup.step(world.reply(lookup.stage));
    assert(next.stage == Stage::Trying(0));
    lemma_search_finds(next, world, 0, at, translation);
    assert(invocations(next, 0, at + 1) =~= invocations(lookup, 0, at + 1));
    assert(run(lookup, world).requests =~= (seq![read_request(lookup)] + invocations(
        lookup,
        0,
        at + 1,
    )).push(write_request(lookup, translation)));
}

/// When the cache has no value to offer and no engine produces a
/// translation, the answer is that there is none. Every engine has then
/// been invoked once, in catalog order, and nothing is written to the
/// cache.
pub proof fn no_translation_is_answered_absent(
    catalog: Seq<Text>,
    language: Text,
    word: Text,
    world: World,
)
    requires
        world.covers(catalog),
        !(world.read is Hit),
        world.all_fail(0, catalog.len() as int),
    ensures
        run(Lookup::start(catalog, language, word), world) == ({
            let lookup = Lookup::start(catalog, language, word);
            Run {
                requests: seq![read_request(lookup)] + invocations(lookup, 0, catalog.len() as int),
                answer: None,
            }
        }),
        forall|k: int|
            0 <= k < run(Lookup::start(catalog, language, word), world).requests.len() ==> !(run(
                Lookup::start(catalog, language, word),
                world,
            ).requests[k] is Write),
{
    let lookup = Lookup::start(catalog, language, word);
    let next = lookup.step(world.reply(lookup.stage));
    if catalog.len() == 0 {
        assert(next.stage == Stage::Finished(None));
        assert(run(next, world).requests =~= Seq::<Action>::empty());
    } else {
        assert(next.stage == Stage::Trying(0));
        lemma_search_exhausts(next, world, 0);
        assert(invocations(next, 0, catalog.len() as int) =~= invocations(
            lookup,
            0,
            catalog.len() as int,
        ));
    }
    assert(run(lookup, world).requests =~= seq![read_request(lookup)] + invocations(
        lookup,
        0,
        catalog.len() as int,
    ));
}

/// A cache that cannot be read does not fail the lookup: the lookup goes
/// on exactly as it does after a miss.
pub proof fn failed_read_runs_like_a_miss(
    catalog: Seq<Text>,
    language: Text,
    word: Text,
    world: World,
)
    requires
        world.read is Failure,
    ensures
        run(Lookup::start(catalog, language, word), world) == run(
            Lookup::start(catalog, language, word),
            World { read: CacheRead::Miss, ..world },
        ),
{
    let lookup = Lookup::start(catalog, language, word);
    let missed = World { read: CacheRead::Miss, ..world };
    assert(lookup.step(world.reply(lookup.stage)) == lookup.step(missed.reply(lookup.stage)));
    lemma_run_ignores_the_read(lookup.step(world.reply(lookup.stage)), world, missed);
}

/// When the cache cannot be read, the lookup still answers with the
/// first translation that an engine produces, and the last thing it asks
/// for is the write of that translation to the cache.
pub proof fn failed_read_still_translates_and_writes(
    catalog: Seq<Text>,
    language: Text,
    word: Text,
    world: World,
    at: int,
    translation: Text,
)
    requires
        world.covers(catalog),
        world.read is Failure,
        0 <= at < catalog.len(),
        world.all_fail(0, at),
        translation_in(world.engines[at]) == Some(translation),
    ensures
        run(Lookup::start(catalog, language, word), world).answer == Some(translation),
        run(Lookup::start(catalog, language, word), world).requests.last() == write_request(
            Lookup::start(catalog, language, word),
            translation,
        ),
{
    first_translation_is_the_answer(catalog, language, word, world, at, translation);
}

/// Once the read is behind it, a lookup runs alike in two worlds that
/// differ in nothing but the answer to the read.
proof fn lemma_run_ignores_the_read(lookup: Lookup, world: World, other: World)
    requires
        !(lookup.stage is Reading),
        other.engines == world.engines,
        other.write == world.write,
    ensures
        run(lookup, world) == run(lookup, other),
    decreases lookup.remaining(),
{
    if !(lookup.stage is Finished) {
        assert(world.reply(lookup.stage) == other.reply(lookup.stage));
        lemma_run_ignores_the_read(lookup.step(world.reply(lookup.stage)), world, other);
    }
}

/// Whether or not the store takes the write makes no difference to what
/// a lookup asks and what it answers.
pub proof fn write_outcome_changes_nothing(
    catalog: Seq<Text>,
    language: Text,
    word: Text,
    world: World,
    write: CacheWrite,
)
    ensures
        run(Lookup::start(catalog, language, word), world) == run(
            Lookup::start(catalog, language, word),
            World { write, ..world },
        ),
{
    lemma_run_ignores_the_write(
        Lookup::start(catalog, language, word),
        world,
        World { write, ..world },
    );
}

/// A fresh translation is never lost to a cache that cannot be written:
/// the lookup still answers with the translation it computed.
pub proof fn failed_write_keeps_the_answer(
    catalog: Seq<Text>,
    language: Text,
    word: Text,
    world: World,
    at: int,
    translation: Text,
)
    requires
        world.covers(catalog),
        world.write is Failure,
        !(world.read is Hit),
        0 <= at < catalog.len(),
        world.all_fail(0, at),
        translation_in(world.engines[at]) == Some(translation),
    ensures
        run(Lookup::start(catalog, language, word), world).answer == Some(translation),
{
    first_translation_is_the_answer(catalog, language, word, world, at, translation);
}

/// A lookup runs alike in two worlds that differ in nothing but the
/// answer to the write.
proof fn lemma_run_ignores_the_write(lookup: Lookup, world: World, other: World)
    requires
        other.read == world.read,
        other.engines == world.engines,
    ensures
        run(lookup, world) == run(lookup, other),
    decreases lookup.remaining(),
{
    if !(lookup.stage is Finished) {
        assert(lookup.step(world.reply(lookup.stage)) == lookup.step(other.reply(lookup.stage)));
        lemma_run_ignores_the_write(lookup.step(world.reply(lookup.stage)), world, other);
    }
}

} // verus!
