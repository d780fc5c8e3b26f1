//! The cached lookup: the cache is read first, the engines are asked only
//! on a miss, and a fresh translation is written back before it is
//! returned.
//!
//! A [`Lookup`] does none of this itself. It names the pending action, the
//! caller performs it and reports the event, and [`Lookup::step`] decides
//! what comes next. How long the caller waits for a collaborator is the
//! caller's to say: one that gives up on the store or on an engine
//! reports a failure, and the lookup goes on.

use crate::catalog::Catalog;
use crate::engine::read_output;
use crate::fallback::{begin, translate, Attempt};
use crate::model;
use vstd::prelude::*;

verus! {

/// What the cache store hands back for a read.
#[derive(Debug, PartialEq, Eq)]
pub enum CacheRead {
    /// The store holds this value under the key.
    Hit(String),
    /// The store holds nothing under the key.
    Miss,
    /// The store could not be asked.
    Failure,
}

impl View for CacheRead {
    type V = model::CacheRead;

    open spec fn view(&self) -> model::CacheRead {
        match self {
            CacheRead::Hit(value) => model::CacheRead::Hit(value@),
            CacheRead::Miss => model::CacheRead::Miss,
            CacheRead::Failure => model::CacheRead::Failure,
        }
    }
}

/// What an engine hands back for one invocation.
#[derive(Debug, PartialEq, Eq)]
pub enum EngineReply {
    /// The bytes the engine printed.
    Output(Vec<u8>),
    /// The engine could not be started.
    Failure,
}

impl View for EngineReply {
    type V = model::EngineReply;

    open spec fn view(&self) -> model::EngineReply {
        match self {
            EngineReply::Output(bytes) => model::EngineReply::Output(bytes@),
            EngineReply::Failure => model::EngineReply::Failure,
        }
    }
}

/// What the cache store hands back for a write.
#[derive(Debug, PartialEq, Eq)]
pub enum CacheWrite {
    /// The store took the value.
    Stored,
    /// The store could not be asked.
    Failure,
}

impl View for CacheWrite {
    type V = model::CacheWrite;

    open spec fn view(&self) -> model::CacheWrite {
        match self {
            CacheWrite::Stored => model::CacheWrite::Stored,
            CacheWrite::Failure => model::CacheWrite::Failure,
        }
    }
}

/// What a collaborator hands back to the lookup.
#[derive(Debug, PartialEq, Eq)]
pub enum Event {
    Read(CacheRead),
    Engine(EngineReply),
    Write(CacheWrite),
}

impl View for Event {
    type V = model::Event;

    open spec fn view(&self) -> model::Event {
        match self {
            Event::Read(read) => model::Event::Read(read@),
            Event::Engine(reply) => model::Event::Engine(reply@),
            Event::Write(write) => model::Event::Write(write@),
        }
    }
}

/// What the lookup wants done next.
#[derive(Debug, PartialEq, Eq)]
pub enum Action {
    /// Read the cache under (language, word).
    Read { language: String, word: String },
    /// Invoke one engine on (language, word).
    Invoke { engine: String, language: String, word: String },
    /// Write the translation to the cache under (language, word).
    Write { language: String, word: String, translation: String },
    /// Hand the answer to the caller; nothing more is to be done.
    Answer(Option<String>),
}

impl View for Action {
    type V = model::Action;

    open spec fn view(&self) -> model::Action {
        match self {
            Action::Read { language, word } => model::Action::Read {
                language: language@,
                word: word@,
            },
            Action::Invoke { engine, language, word } => model::Action::Invoke {
                engine: engine@,
                language: language@,
                word: word@,
            },
            Action::Write { language, word, translation } => model::Action::Write {
                language: language@,
                word: word@,
                translation: translation@,
            },
            Action::Answer(answer) => model::Action::Answer(answer.deep_view()),
        }
    }
}

/// Where a lookup stands.
enum Stage {
    Reading,
    Trying(usize),
    Writing(String),
    Finished(Option<String>),
}

impl View for Stage {
    type V = model::Stage;

    closed spec fn view(&self) -> model::Stage {
        match self {
            Stage::Reading => model::Stage::Reading,
            Stage::Trying(position) => model::Stage::Trying(*position as nat),
            Stage::Writing(translation) => model::Stage::Writing(translation@),
            Stage::Finished(answer) => model::Stage::Finished(answer.deep_view()),
        }
    }
}

/// The stage a lookup is in once its search stands at `attempt`.
fn stage_after(attempt: Attempt) -> (stage: Stage)
    ensures
        stage@ == model::stage_after(attempt@),
{
    match attempt {
        Attempt::Ask(position) => Stage::Trying(position),
        Attempt::Found(translation) => Stage::Writing(translation),
        Attempt::Exhausted => Stage::Finished(None),
    }
}

/// One lookup of a word in a language, against a catalog of engines.
pub struct Lookup<'a> {
    catalog: &'a Catalog,
    language: String,
    word: String,
    stage: Stage,
}

impl<'a> View for Lookup<'a> {
    type V = model::Lookup;

    closed spec fn view(&self) -> model::Lookup {
        model::Lookup {
            catalog: self.catalog@,
            language: self.language@,
            word: self.word@,
            stage: self.stage@,
        }
    }
}

impl<'a> Lookup<'a> {
    #[verifier::type_invariant]
    spec fn inv(self) -> bool {
        self@.wf()
    }

    /// A lookup of `word` in `language`. It begins by reading the cache.
    pub fn new(catalog: &'a Catalog, language: &str, word: &str) -> (lookup: Lookup<'a>)
        ensures
            lookup@ == model::Lookup::start(catalog@, language@, word@),
            lookup@.wf(),
    {
        Lookup {
            catalog,
            language: language.to_owned(),
            word: word.to_owned(),
            stage: Stage::Reading,
        }
    }

    /// Whether the lookup is over and its pending action is the answer.
    pub fn finished(&self) -> (over: bool)
        ensures
            over == self@.finished(),
    {
        match self.stage {
            Stage::Finished(_) => true,
            _ => false,
        }
    }

    /// What the lookup wants done in its present stage.
    pub fn pending(&self) -> (action: Action)
        ensures
            action@ == self@.pending(),
    {
        proof {
            use_type_invariant(self);
        }
        match &self.stage {
            Stage::Reading => Action::Read {
                language: self.language.clone(),
                word: self.word.clone(),
            },
            Stage::Trying(position) => {
                let engine = self.catalog.get(*position).unwrap();
                Action::Invoke {
                    engine: engine.clone(),
                    language: self.language.clone(),
                    word: self.word.clone(),
                }
            },
            Stage::Writing(translation) => Action::Write {
                language: self.language.clone(),
                word: self.word.clone(),
                translation: translation.clone(),
            },
            Stage::Finished(answer) => Action::Answer(answer.clone()),
        }
    }

    /// The lookup after `event`.
    ///
    /// A hit ends the lookup with the cached value. A miss and a failed
    /// read both begin the search through the catalog, and every engine
    /// reply moves that search on. Once the write of a fresh translation
    /// has been attempted, whether or not the store took it, the lookup
    /// ends with that translation. An event that does not answer the
    /// pending action changes nothing.
    pub fn step(self, event: Event) -> (next: Lookup<'a>)
        ensures
            next@ == self@.step(event@),
            next@.wf(),
    {
        proof {
            use_type_invariant(&self);
        }
        let Lookup { catalog, language, word, stage } = self;
        let stage = match (stage, event) {
            (Stage::Reading, Event::Read(CacheRead::Hit(value))) => Stage::Finished(Some(value)),
            (Stage::Reading, Event::Read(_)) => stage_after(begin(catalog)),
            (Stage::Trying(position), Event::Engine(EngineReply::Output(bytes))) => stage_after(
                translate(catalog, position, read_output(bytes)),
            ),
            (Stage::Trying(position), Event::Engine(EngineReply::Failure)) => stage_after(
                translate(catalog, position, None),
            ),
            (Stage::Writing(translation), Event::Write(_)) => Stage::Finished(Some(translation)),
            (stage, _) => stage,
        };
        Lookup { catalog, language, word, stage }
    }
}

} // verus!
