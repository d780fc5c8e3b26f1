//! A model of the cache store, and what holds of lookups that are served
//! from it one after the other.
//!
//! The store maps a key, the pair of language and word, to a translation.
//! It is modelled in working order: a read tells what it holds, and a
//! write is taken. What a lookup does when the store is out of order is
//! the subject of the theorems on single runs.

use crate::model::{translation_in, Action, CacheRead, CacheWrite, EngineReply, Lookup, Text};
use crate::run::{
    first_translation_is_the_answer, hit_is_answered_from_the_cache,
    no_translation_is_answered_absent, read_request, run, World,
};
use vstd::prelude::*;

verus! {

/// What the cache holds: translations by (language, word).
pub type Store = Map<(Text, Text), Text>;

/// What a working store answers to a read of (language, word).
pub open spec fn read_of(store: Store, language: Text, word: Text) -> CacheRead {
    if store.contains_key((language, word)) {
        CacheRead::Hit(store[(language, word)])
    } else {
        CacheRead::Miss
    }
}

/// The store once it has taken every write among `requests`, in order.
pub open spec fn after(store: Store, requests: Seq<Action>) -> Store
    decreases requests.len(),
{
    if requests.len() == 0 {
        store
    } else {
        let before = after(store, requests.drop_last());
        match requests.last() {
            Action::Write { language, word, translation } => before.insert(
                (language, word),
                translation,
            ),
            _ => before,
        }
    }
}

/// The world of a lookup of (language, word) that is served from a
/// working `store`, with engines that answer as `engines` says.
pub open spec fn world_of(store: Store, language: Text, word: Text, engines: Seq<EngineReply>) -> World {
    World { read: read_of(store, language, word), engines, write: CacheWrite::Stored }
}

/// A lookup as served from a store: what it asked, what it answered, and
/// what the store holds afterwards.
pub struct Served {
    pub requests: Seq<Action>,
    pub answer: Option<Text>,
    pub store: Store,
}

/// Serves one lookup of (language, word) from a working `store`.
pub open spec fn serve(
    store: Store,
    catalog: Seq<Text>,
    language: Text,
    word: Text,
    engines: Seq<EngineReply>,
) -> Served {
    let done = run(
        Lookup::start(catalog, language, word),
        world_of(store, language, word, engines),
    );
    Served { requests: done.requests, answer: done.answer, store: after(store, done.requests) }
}

/// Requests that hold no write leave the store as it is.
proof fn lemma_after_without_write(store: Store, requests: Seq<Action>)
    requires
        forall|k: int| 0 <= k < requests.len() ==> !(requests[k] is Write),
    ensures
        after(store, requests) == store,
    decreases requests.len(),
{
    if requests.len() > 0 {
        lemma_after_without_write(store, requests.drop_last());
    }
}

/// Requests that end in a write, and hold no other, leave the store with
/// that one entry added.
proof fn lemma_after_final_write(
    store: Store,
    requests: Seq<Action>,
    language: Text,
    word: Text,
    translation: Text,
)
    requires
        requests.len() > 0,
        requests.last() == (Action::Write { language, word, translation }),
        forall|k: int| 0 <= k < requests.len() - 1 ==> !(requests[k] is Write),
    ensures
        after(store, requests) == store.insert((language, word), translation),
{
    lemma_after_without_write(store, requests.drop_last());
}

/// A lookup of a key that the cache does not hold yet, with at least one
/// engine that produces a translation, answers with the translation of
/// the first such engine and leaves it in the cache under that key. A
/// second lookup of the same key then gives the identical answer from the
/// cache alone: it invokes no engine, whatever the engines would answer
/// by then, and leaves the cache as it found it.
pub proof fn cold_lookup_fills_the_cache_for_the_next(
    store: Store,
    catalog: Seq<Text>,
    language: Text,
    word: Text,
    engines: Seq<EngineReply>,
    at: int,
    translation: Text,
    later: Seq<EngineReply>,
)
    requires
        engines.len() == catalog.len(),
        !store.contains_key((language, word)),
        0 <= at < catalog.len(),
        forall|j: int| 0 <= j < at ==> translation_in(#[trigger] engines[j]) is None,
        translation_in(engines[at]) == Some(translation),
    ensures
        ({
            let first = serve(store, catalog, language, word, engines);
            let second = serve(first.store, catalog, language, word, later);
            &&& first.answer == Some(translation)
            &&& first.store == store.insert((language, word), translation)
            &&& second.answer == first.answer
            &&& second.requests == seq![read_request(Lookup::start(catalog, language, word))]
            &&& second.store == first.store
        }),
{
    let lookup = Lookup::start(catalog, language, word);
    let world = world_of(store, language, word, engines);
    first_translation_is_the_answer(catalog, language, word, world, at, translation);
    let first = serve(store, catalog, language, word, engines);
    lemma_after_final_write(store, first.requests, language, word, translation);
    let next = world_of(first.store, language, word, later);
    hit_is_answered_from_the_cache(catalog, language, word, next, translation);
    let second = serve(first.store, catalog, language, word, later);
    lemma_after_without_write(first.store, second.requests);
}

/// A lookup of a key that the cache holds answers with the cached value,
/// invokes no engine and leaves the cache as it found it.
pub proof fn cached_lookup_leaves_the_cache_alone(
    store: Store,
    catalog: Seq<Text>,
    language: Text,
    word: Text,
    engines: Seq<EngineReply>,
)
    requires
        store.contains_key((language, word)),
    ensures
        serve(store, catalog, language, word, engines) == (Served {
            requests: seq![read_request(Lookup::start(catalog, language, word))],
            answer: Some(store[(language, word)]),
            store,
        }),
{
    let world = world_of(store, language, word, engines);
    hit_is_answered_from_the_cache(catalog, language, word, world, store[(language, word)]);
    lemma_after_without_write(store, serve(store, catalog, language, word, engines).requests);
}

/// A lookup for which no engine produces a translation answers that
/// there is none and leaves the cache as it found it.
pub proof fn failed_lookup_leaves_the_cache_alone(
    store: Store,
    catalog: Seq<Text>,
    language: Text,
    word: Text,
    engines: Seq<EngineReply>,
)
    requires
        engines.len() == catalog.len(),
        !store.contains_key((language, word)),
        forall|j: int| 0 <= j < catalog.len() ==> translation_in(#[trigger] engines[j]) is None,
    ensures
        serve(store, catalog, language, word, engines).answer == None::<Text>,
        serve(store, catalog, language, word, engines).store == store,
{
    let world = world_of(store, language, word, engines);
    no_translation_is_answered_absent(catalog, language, word, world);
    lemma_after_without_write(store, serve(store, catalog, language, word, engines).requests);
}

} // verus!
