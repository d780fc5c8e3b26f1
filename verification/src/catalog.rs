//! The engine catalog: the engines that may be asked, in the order in
//! which they are asked.

use crate::engine::decode;
use crate::model::{
    distinct, distinct_has_no_duplicates, engine_names, is_engine_name, names, Text,
};
use vstd::prelude::*;
use vstd::string::*;
use vstd::utf8::*;

verus! {

/// The words that `str::split_whitespace` finds in a text, in order.
pub uninterp spec fn words_of(text: Seq<char>) -> Seq<Seq<char>>;

/// Splits `text` into its words with `str::split_whitespace`.
///
/// Trusted: the words depend on the text alone.
#[verifier::external_body]
fn split(text: &str) -> (words: Vec<String>)
    ensures
        names(words@) == words_of(text@),
{
    text.split_whitespace().map(String::from).collect()
}

/// Whether `engines` holds `name`.
fn holds(engines: &Vec<String>, name: &String) -> (found: bool)
    ensures
        found == names(engines@).contains(name@),
{
    let mut i: usize = 0;
    while i < engines.len()
        invariant
            i <= engines.len(),
            forall|j: int| 0 <= j < i ==> names(engines@)[j] != name@,
        decreases engines.len() - i,
    {
        if engines[i] == *name {
            assert(names(engines@)[i as int] == name@);
            return true;
        }
        i += 1;
    }
    false
}

/// The words of `words` that name engines, in order.
///
/// A word names an engine unless it is empty or begins with a star.
pub fn select(words: Vec<String>) -> (engines: Vec<String>)
    ensures
        names(engines@) == engine_names(names(words@)),
{
    let ghost all = names(words@);
    let ghost keep = |word: Text| is_engine_name(word);
    let mut engines: Vec<String> = Vec::new();
    let mut i: usize = 0;
    proof {
        reveal(Seq::filter);
        assert(names(engines@) =~= all.take(0).filter(keep));
    }
    while i < words.len()
        invariant
            i <= words.len(),
            all == names(words@),
            keep == |word: Text| is_engine_name(word),
            names(engines@) == all.take(i as int).filter(keep),
        decreases words.len() - i,
    {
        let word = words[i].as_str();
        proof {
            reveal(Seq::filter);
            assert(all.take(i + 1).drop_last() =~= all.take(i as int));
            assert(all.take(i + 1).last() == word@);
        }
        if !word.is_empty() && word.get_char(0) != '*' {
            engines.push(words[i].clone());
            assert(names(engines@) =~= all.take(i as int).filter(keep).push(word@));
        }
        i += 1;
    }
    assert(all.take(words.len() as int) =~= all);
    engines
}

/// The engines known to the gateway, in fallback order.
///
/// A catalog is made once and never changes, and it holds no engine
/// twice. It may be empty: every lookup that misses the cache is then
/// answered with no translation, and no engine is ever asked. A caller
/// for whom that is a fault tests [`Catalog::is_empty`] at startup.
#[derive(Debug)]
pub struct Catalog {
    engines: Vec<String>,
}

impl View for Catalog {
    type V = Seq<Text>;

    closed spec fn view(&self) -> Seq<Text> {
        names(self.engines@)
    }
}

impl Catalog {
    #[verifier::type_invariant]
    spec fn inv(self) -> bool {
        names(self.engines@).no_duplicates()
    }

    /// The catalog of the given engines in the given order. An engine
    /// that is named more than once stands where it is named first.
    pub fn new(engines: Vec<String>) -> (catalog: Catalog)
        ensures
            catalog@ == distinct(names(engines@)),
            catalog@.no_duplicates(),
    {
        let ghost all = names(engines@);
        let mut kept: Vec<String> = Vec::new();
        let mut i: usize = 0;
        while i < engines.len()
            invariant
                i <= engines.len(),
                all == names(engines@),
                names(kept@) == distinct(all.take(i as int)),
            decreases engines.len() - i,
        {
            proof {
                assert(all.take(i + 1).drop_last() =~= all.take(i as int));
                assert(all.take(i + 1).last() == engines[i as int]@);
            }
            if !holds(&kept, &engines[i]) {
                kept.push(engines[i].clone());
                assert(names(kept@) =~= distinct(all.take(i as int)).push(engines[i as int]@));
            }
            i += 1;
        }
        proof {
            assert(all.take(engines.len() as int) =~= all);
            distinct_has_no_duplicates(all);
        }
        Catalog { engines: kept }
    }

    /// The number of engines.
    pub fn len(&self) -> (n: usize)
        ensures
            n == self@.len(),
    {
        self.engines.len()
    }

    /// Whether the catalog holds no engine at all.
    pub fn is_empty(&self) -> (empty: bool)
        ensures
            empty == (self@.len() == 0),
    {
        self.engines.len() == 0
    }

    /// The engine at `position`, if the catalog reaches that far.
    pub fn get(&self, position: usize) -> (engine: Option<&String>)
        ensures
            engine is Some <==> position < self@.len(),
            engine matches Some(name) ==> name@ == self@[position as int],
    {
        if position < self.engines.len() {
            Some(&self.engines[position])
        } else {
            None
        }
    }
}

/// The catalog that an engine listing describes.
///
/// The listing is the output of the engines' own enumeration. It is read
/// as text, split into words at whitespace, and each word that names an
/// engine enters the catalog, in the order of the listing. A listing that
/// is not valid UTF-8 describes no catalog.
pub fn parse_listing(output: Vec<u8>) -> (catalog: Option<Catalog>)
    ensures
        catalog is Some <==> valid_utf8(output@),
        catalog matches Some(c) ==> {
            &&& c@ == distinct(engine_names(words_of(decode_utf8(output@))))
            &&& c@.no_duplicates()
        },
{
    match decode(output) {
        Some(text) => {
            proof {
                encode_utf8_decode_utf8(text@);
            }
            Some(Catalog::new(select(split(text.as_str()))))
        },
        None => None,
    }
}

} // verus!
