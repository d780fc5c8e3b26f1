//! The fallback translator: engines are asked in catalog order until one
//! of them produces a translation.

use crate::catalog::Catalog;
use crate::model;
use crate::model::{first_attempt, next_attempt, Text};
use vstd::prelude::*;

verus! {

/// Where the search through the catalog stands.
#[derive(Debug, PartialEq, Eq)]
pub enum Attempt {
    /// The engine at this catalog position is to be asked.
    Ask(usize),
    /// An engine produced this translation.
    Found(String),
    /// No engine is left to ask.
    Exhausted,
}

impl View for Attempt {
    type V = model::Attempt;

    open spec fn view(&self) -> model::Attempt {
        match self {
            Attempt::Ask(position) => model::Attempt::Ask(*position as nat),
            Attempt::Found(translation) => model::Attempt::Found(translation@),
            Attempt::Exhausted => model::Attempt::Exhausted,
        }
    }
}

/// Begins the search: the first engine of the catalog is to be asked, and
/// with an empty catalog the search is over before it began.
pub fn begin(catalog: &Catalog) -> (attempt: Attempt)
    ensures
        attempt@ == model::first_attempt(catalog@.len()),
{
    if catalog.is_empty() {
        Attempt::Exhausted
    } else {
        Attempt::Ask(0)
    }
}

/// Moves the search on once the engine at `position` has answered.
///
/// `outcome` is the translation that the engine produced, if it produced
/// one. A translation ends the search. Without one the next engine in
/// catalog order is to be asked, and after the last engine the search is
/// exhausted. A failing engine never fails the search as a whole.
pub fn translate(catalog: &Catalog, position: usize, outcome: Option<String>) -> (attempt: Attempt)
    ensures
        attempt@ == model::next_attempt(catalog@.len(), position as nat, outcome.deep_view()),
{
    match outcome {
        Some(translation) => Attempt::Found(translation),
        None => {
            let len: usize = catalog.len();
            if position < len && position + 1 < len {
                Attempt::Ask(position + 1)
            } else {
                Attempt::Exhausted
            }
        },
    }
}

/// What a search came to: the catalog positions it asked, in the order
/// in which it asked them, and the translation it found.
pub struct Search {
    pub asked: Seq<int>,
    pub found: Option<Text>,
}

/// The search from `attempt` on, over engines of which the one at each
/// catalog position produces what `outcomes` holds at that position.
pub open spec fn search(outcomes: Seq<Option<Text>>, attempt: model::Attempt) -> Search
    decreases
        match attempt {
            model::Attempt::Ask(position) => outcomes.len() - position,
            _ => 0,
        },
{
    match attempt {
        model::Attempt::Ask(position) => if position < outcomes.len() {
            let rest = search(
                outcomes,
                next_attempt(outcomes.len(), position, outcomes[position as int]),
            );
            Search { asked: seq![position as int] + rest.asked, found: rest.found }
        } else {
            Search { asked: Seq::empty(), found: None }
        },
        model::Attempt::Found(translation) => Search {
            asked: Seq::empty(),
            found: Some(translation),
        },
        model::Attempt::Exhausted => Search { asked: Seq::empty(), found: None },
    }
}

/// The catalog positions `from..to`, in order.
pub open spec fn positions(from: int, to: int) -> Seq<int> {
    Seq::new((to - from) as nat, |j: int| from + j)
}

/// A search that stands at `from` and meets its first translation at
/// `at` asks the positions from `from` up to `at` and finds it.
proof fn lemma_search_from(outcomes: Seq<Option<Text>>, from: int, at: int)
    requires
        0 <= from <= at < outcomes.len(),
        forall|j: int| from <= j < at ==> outcomes[j] is None,
        outcomes[at] is Some,
    ensures
        search(outcomes, model::Attempt::Ask(from as nat)) == (Search {
            asked: positions(from, at + 1),
            found: outcomes[at],
        }),
    decreases at - from,
{
    let here = search(outcomes, model::Attempt::Ask(from as nat));
    let next = next_attempt(outcomes.len(), from as nat, outcomes[from]);
    if from == at {
        assert(next == model::Attempt::Found(outcomes[at]->0));
    } else {
        assert(next == model::Attempt::Ask((from + 1) as nat));
        lemma_search_from(outcomes, from + 1, at);
    }
    assert(here.asked =~= positions(from, at + 1));
}

/// A search that stands at `from` and meets no translation up to the
/// end of the catalog asks every position from `from` on and finds
/// nothing.
proof fn lemma_search_to_the_end(outcomes: Seq<Option<Text>>, from: int)
    requires
        0 <= from < outcomes.len(),
        forall|j: int| from <= j < outcomes.len() ==> outcomes[j] is None,
    ensures
        search(outcomes, model::Attempt::Ask(from as nat)) == (Search {
            asked: positions(from, outcomes.len() as int),
            found: None,
        }),
    decreases outcomes.len() - from,
{
    let here = search(outcomes, model::Attempt::Ask(from as nat));
    let next = next_attempt(outcomes.len(), from as nat, outcomes[from]);
    if from + 1 < outcomes.len() {
        assert(next == model::Attempt::Ask((from + 1) as nat));
        lemma_search_to_the_end(outcomes, from + 1);
    } else {
        assert(next == model::Attempt::Exhausted);
        assert(search(outcomes, next).asked =~= Seq::<int>::empty());
    }
    assert(here.asked =~= positions(from, outcomes.len() as int));
}

/// Where the engines before position `at` produce nothing and the engine
/// at `at` produces a translation, the search finds that translation. It
/// asks the engines up to `at` in catalog order, each once, and no
/// engine behind `at`, whatever those would produce.
pub proof fn search_finds_the_first_translation(outcomes: Seq<Option<Text>>, at: int)
    requires
        0 <= at < outcomes.len(),
        forall|j: int| 0 <= j < at ==> outcomes[j] is None,
        outcomes[at] is Some,
    ensures
        search(outcomes, first_attempt(outcomes.len())) == (Search {
            asked: positions(0, at + 1),
            found: outcomes[at],
        }),
{
    lemma_search_from(outcomes, 0, at);
}

/// Where no engine produces a translation, the search finds nothing,
/// having asked every engine of the catalog once, in catalog order.
pub proof fn search_without_translation_is_exhausted(outcomes: Seq<Option<Text>>)
    requires
        forall|j: int| 0 <= j < outcomes.len() ==> outcomes[j] is None,
    ensures
        search(outcomes, first_attempt(outcomes.len())) == (Search {
            asked: positions(0, outcomes.len() as int),
            found: None,
        }),
{
    if outcomes.len() > 0 {
        lemma_search_to_the_end(outcomes, 0);
    } else {
        assert(search(outcomes, first_attempt(0)).asked =~= positions(0, 0));
    }
}

} // verus!
