use std::collections::HashMap;

use translate_api::catalog::Catalog;
use translate_api::lookup::{Action, CacheRead, CacheWrite, EngineReply, Event, Lookup};

/// A cache and a set of engines that keep book of what was asked of them.
struct Bench {
    cache: HashMap<(String, String), String>,
    readable: bool,
    writable: bool,
    /// Engine, language and word to the bytes that the engine prints.
    outputs: HashMap<(String, String, String), Vec<u8>>,
    /// Engines that cannot be started at all.
    broken: Vec<String>,
    reads: usize,
    writes: usize,
    invoked: Vec<String>,
}

impl Bench {
    fn new() -> Bench {
        Bench {
            cache: HashMap::new(),
            readable: true,
            writable: true,
            outputs: HashMap::new(),
            broken: Vec::new(),
            reads: 0,
            writes: 0,
            invoked: Vec::new(),
        }
    }

    fn engine_prints(&mut self, engine: &str, language: &str, word: &str, output: &[u8]) {
        self.outputs.insert(
            (engine.to_string(), language.to_string(), word.to_string()),
            output.to_vec(),
        );
    }

    fn perform(&mut self, action: Action) -> Event {
        match action {
            Action::Read { language, word } => {
                self.reads += 1;
                if !self.readable {
                    return Event::Read(CacheRead::Failure);
                }
                match self.cache.get(&(language, word)) {
                    Some(value) => Event::Read(CacheRead::Hit(value.clone())),
                    None => Event::Read(CacheRead::Miss),
                }
            }
            Action::Invoke { engine, language, word } => {
                self.invoked.push(engine.clone());
                if self.broken.contains(&engine) {
                    return Event::Engine(EngineReply::Failure);
                }
                let output = self.outputs.get(&(engine, language, word)).cloned();
                Event::Engine(EngineReply::Output(output.unwrap_or_default()))
            }
            Action::Write { language, word, translation } => {
                self.writes += 1;
                if !self.writable {
                    return Event::Write(CacheWrite::Failure);
                }
                self.cache.insert((language, word), translation);
                Event::Write(CacheWrite::Stored)
            }
            Action::Answer(_) => unreachable!(),
        }
    }

    fn lookup(&mut self, catalog: &Catalog, language: &str, word: &str) -> Option<String> {
        let mut lookup = Lookup::new(catalog, language, word);
        let mut steps = 0;
        loop {
            let action = lookup.pending();
            if let Action::Answer(answer) = action {
                assert!(lookup.finished());
                return answer;
            }
            assert!(!lookup.finished());
            let event = self.perform(action);
            lookup = lookup.step(event);
            steps += 1;
            assert!(steps <= catalog.len() + 2);
        }
    }
}

fn catalog_of(engines: &[&str]) -> Catalog {
    Catalog::new(engines.iter().map(|engine| engine.to_string()).collect())
}

fn key(language: &str, word: &str) -> (String, String) {
    (language.to_string(), word.to_string())
}

#[test]
fn second_engine_answers_and_the_cache_answers_afterwards() {
    let catalog = catalog_of(&["A", "B"]);
    let mut bench = Bench::new();
    bench.broken.push("A".to_string());
    bench.engine_prints("B", "es", "hello", b"hola");

    let first = bench.lookup(&catalog, "es", "hello");
    assert_eq!(first, Some("hola".to_string()));
    assert_eq!(bench.cache.get(&key("es", "hello")), Some(&"hola".to_string()));
    assert_eq!(bench.invoked, vec!["A".to_string(), "B".to_string()]);

    bench.invoked.clear();
    let second = bench.lookup(&catalog, "es", "hello");
    assert_eq!(second, Some("hola".to_string()));
    assert!(bench.invoked.is_empty());
    assert_eq!(bench.writes, 1);
}

#[test]
fn only_engine_fails_and_the_cache_stays_as_it_is() {
    let catalog = catalog_of(&["A"]);
    let mut bench = Bench::new();
    bench.cache.insert(key("fr", "other"), "autre".to_string());
    let before = bench.cache.clone();

    let answer = bench.lookup(&catalog, "fr", "xyzzy");
    assert_eq!(answer, None);
    assert_eq!(bench.cache, before);
    assert_eq!(bench.writes, 0);
    assert_eq!(bench.invoked, vec!["A".to_string()]);
}

#[test]
fn cold_lookup_and_its_repetition_agree() {
    let catalog = catalog_of(&["google", "bing", "yandex"]);
    let mut bench = Bench::new();
    bench.engine_prints("bing", "de", "cat", b"Katze");
    bench.engine_prints("yandex", "de", "cat", b"Kater");

    let first = bench.lookup(&catalog, "de", "cat");
    // The engines change their mind; the cache does not.
    bench.engine_prints("google", "de", "cat", b"Mieze");
    let second = bench.lookup(&catalog, "de", "cat");
    assert_eq!(first, Some("Katze".to_string()));
    assert_eq!(second, first);
}

#[test]
fn cached_value_is_returned_without_any_engine() {
    let catalog = catalog_of(&["google", "bing"]);
    let mut bench = Bench::new();
    bench.cache.insert(key("es", "hello"), "hola".to_string());
    bench.engine_prints("google", "es", "hello", b"buenas");

    let answer = bench.lookup(&catalog, "es", "hello");
    assert_eq!(answer, Some("hola".to_string()));
    assert!(bench.invoked.is_empty());
    assert_eq!(bench.reads, 1);
    assert_eq!(bench.writes, 0);
}

#[test]
fn engines_behind_the_first_success_are_never_invoked() {
    let catalog = catalog_of(&["a", "b", "c", "d", "e"]);
    let mut bench = Bench::new();
    bench.broken.push("a".to_string());
    bench.engine_prints("b", "it", "dog", b"");
    bench.engine_prints("c", "it", "dog", b"cane");
    bench.engine_prints("d", "it", "dog", b"canis");
    bench.engine_prints("e", "it", "dog", b"cagnolino");

    let answer = bench.lookup(&catalog, "it", "dog");
    assert_eq!(answer, Some("cane".to_string()));
    assert_eq!(bench.invoked, vec!["a".to_string(), "b".to_string(), "c".to_string()]);
}

#[test]
fn exhausted_lookup_is_absent_and_writes_nothing() {
    let catalog = catalog_of(&["a", "b", "c"]);
    let mut bench = Bench::new();
    bench.broken.push("a".to_string());
    bench.engine_prints("b", "it", "dog", b"");
    bench.engine_prints("c", "it", "dog", &[0xff, 0xfe]);

    let answer = bench.lookup(&catalog, "it", "dog");
    assert_eq!(answer, None);
    assert_eq!(bench.invoked, vec!["a".to_string(), "b".to_string(), "c".to_string()]);
    assert_eq!(bench.writes, 0);
    assert!(bench.cache.is_empty());
}

#[test]
fn unreadable_cache_falls_through_and_is_written_afterwards() {
    let catalog = catalog_of(&["google"]);
    let mut bench = Bench::new();
    bench.readable = false;
    bench.cache.insert(key("es", "hello"), "stale".to_string());
    bench.engine_prints("google", "es", "hello", b"hola");

    let answer = bench.lookup(&catalog, "es", "hello");
    assert_eq!(answer, Some("hola".to_string()));
    assert_eq!(bench.invoked, vec!["google".to_string()]);
    assert_eq!(bench.writes, 1);
    assert_eq!(bench.cache.get(&key("es", "hello")), Some(&"hola".to_string()));
}

#[test]
fn unwritable_cache_does_not_lose_the_translation() {
    let catalog = catalog_of(&["google"]);
    let mut bench = Bench::new();
    bench.writable = false;
    bench.engine_prints("google", "es", "hello", b"hola");

    let answer = bench.lookup(&catalog, "es", "hello");
    assert_eq!(answer, Some("hola".to_string()));
    assert_eq!(bench.writes, 1);
    assert!(bench.cache.is_empty());
}

#[test]
fn cache_out_of_order_altogether_still_translates() {
    let catalog = catalog_of(&["a", "b"]);
    let mut bench = Bench::new();
    bench.readable = false;
    bench.writable = false;
    bench.engine_prints("b", "es", "hello", b"hola");

    assert_eq!(bench.lookup(&catalog, "es", "hello"), Some("hola".to_string()));
    assert_eq!(bench.lookup(&catalog, "es", "hello"), Some("hola".to_string()));
    assert_eq!(bench.invoked.len(), 4);
}

#[test]
fn empty_catalog_answers_absent_without_asking_anyone() {
    let catalog = catalog_of(&[]);
    let mut bench = Bench::new();

    assert_eq!(bench.lookup(&catalog, "es", "hello"), None);
    assert!(bench.invoked.is_empty());
    assert_eq!(bench.reads, 1);
    assert_eq!(bench.writes, 0);
}

#[test]
fn empty_catalog_still_serves_what_the_cache_holds() {
    let catalog = catalog_of(&[]);
    let mut bench = Bench::new();
    bench.cache.insert(key("es", "hello"), "hola".to_string());

    assert_eq!(bench.lookup(&catalog, "es", "hello"), Some("hola".to_string()));
}

#[test]
fn empty_word_fails_every_engine() {
    let catalog = catalog_of(&["a", "b"]);
    let mut bench = Bench::new();

    assert_eq!(bench.lookup(&catalog, "es", ""), None);
    assert_eq!(bench.invoked, vec!["a".to_string(), "b".to_string()]);
}

#[test]
fn actions_of_a_miss_come_in_order() {
    let catalog = catalog_of(&["a", "b"]);
    let lookup = Lookup::new(&catalog, "es", "hello");
    assert_eq!(
        lookup.pending(),
        Action::Read { language: "es".to_string(), word: "hello".to_string() }
    );

    let lookup = lookup.step(Event::Read(CacheRead::Miss));
    assert_eq!(
        lookup.pending(),
        Action::Invoke {
            engine: "a".to_string(),
            language: "es".to_string(),
            word: "hello".to_string()
        }
    );

    let lookup = lookup.step(Event::Engine(EngineReply::Failure));
    assert_eq!(
        lookup.pending(),
        Action::Invoke {
            engine: "b".to_string(),
            language: "es".to_string(),
            word: "hello".to_string()
        }
    );

    let lookup = lookup.step(Event::Engine(EngineReply::Output(b"hola".to_vec())));
    assert_eq!(
        lookup.pending(),
        Action::Write {
            language: "es".to_string(),
            word: "hello".to_string(),
            translation: "hola".to_string()
        }
    );
    assert!(!lookup.finished());

    let lookup = lookup.step(Event::Write(CacheWrite::Failure));
    assert_eq!(lookup.pending(), Action::Answer(Some("hola".to_string())));
    assert!(lookup.finished());
}

#[test]
fn hit_ends_the_lookup_at_once() {
    let catalog = catalog_of(&["a"]);
    let lookup = Lookup::new(&catalog, "es", "hello");
    let lookup = lookup.step(Event::Read(CacheRead::Hit("hola".to_string())));
    assert!(lookup.finished());
    assert_eq!(lookup.pending(), Action::Answer(Some("hola".to_string())));
}

#[test]
fn cached_empty_value_is_returned_as_it_is() {
    let catalog = catalog_of(&["a"]);
    let lookup = Lookup::new(&catalog, "es", "hello");
    let lookup = lookup.step(Event::Read(CacheRead::Hit(String::new())));
    assert_eq!(lookup.pending(), Action::Answer(Some(String::new())));
}

#[test]
fn failed_read_begins_the_search_like_a_miss() {
    let catalog = catalog_of(&["a"]);
    let missed = Lookup::new(&catalog, "es", "hello").step(Event::Read(CacheRead::Miss));
    let failed = Lookup::new(&catalog, "es", "hello").step(Event::Read(CacheRead::Failure));
    assert_eq!(missed.pending(), failed.pending());
    assert!(matches!(failed.pending(), Action::Invoke { .. }));
}

#[test]
fn event_that_answers_nothing_is_ignored() {
    let catalog = catalog_of(&["a"]);
    let lookup = Lookup::new(&catalog, "es", "hello");
    let read = lookup.pending();

    let lookup = lookup.step(Event::Engine(EngineReply::Output(b"hola".to_vec())));
    assert_eq!(lookup.pending(), read);
    let lookup = lookup.step(Event::Write(CacheWrite::Stored));
    assert_eq!(lookup.pending(), read);

    let lookup = lookup.step(Event::Read(CacheRead::Miss));
    let invoke = lookup.pending();
    let lookup = lookup.step(Event::Read(CacheRead::Hit("hola".to_string())));
    assert_eq!(lookup.pending(), invoke);
    let lookup = lookup.step(Event::Write(CacheWrite::Stored));
    assert_eq!(lookup.pending(), invoke);

    let lookup = lookup.step(Event::Engine(EngineReply::Output(b"hola".to_vec())));
    let write = lookup.pending();
    let lookup = lookup.step(Event::Engine(EngineReply::Failure));
    assert_eq!(lookup.pending(), write);
    let lookup = lookup.step(Event::Read(CacheRead::Miss));
    assert_eq!(lookup.pending(), write);

    let lookup = lookup.step(Event::Write(CacheWrite::Stored));
    let answer = lookup.pending();
    assert_eq!(answer, Action::Answer(Some("hola".to_string())));
    let lookup = lookup.step(Event::Read(CacheRead::Miss));
    let lookup = lookup.step(Event::Engine(EngineReply::Failure));
    let lookup = lookup.step(Event::Write(CacheWrite::Failure));
    assert_eq!(lookup.pending(), answer);
}

#[test]
fn output_that_is_no_text_moves_on_to_the_next_engine() {
    let catalog = catalog_of(&["a", "b"]);
    let lookup = Lookup::new(&catalog, "es", "hello").step(Event::Read(CacheRead::Miss));
    let lookup = lookup.step(Event::Engine(EngineReply::Output(vec![0x80])));
    assert_eq!(
        lookup.pending(),
        Action::Invoke {
            engine: "b".to_string(),
            language: "es".to_string(),
            word: "hello".to_string()
        }
    );
    let lookup = lookup.step(Event::Engine(EngineReply::Output(Vec::new())));
    assert_eq!(lookup.pending(), Action::Answer(None));
}
