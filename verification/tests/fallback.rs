use translate_api::catalog::Catalog;
use translate_api::fallback::{begin, translate, Attempt};

fn three_engines() -> Catalog {
    Catalog::new(vec!["a".to_string(), "b".to_string(), "c".to_string()])
}

#[test]
fn search_begins_at_the_first_engine() {
    assert_eq!(begin(&three_engines()), Attempt::Ask(0));
}

#[test]
fn search_of_an_empty_catalog_is_over_at_once() {
    assert_eq!(begin(&Catalog::new(Vec::new())), Attempt::Exhausted);
}

#[test]
fn translation_ends_the_search() {
    let catalog = three_engines();
    assert_eq!(
        translate(&catalog, 0, Some("hola".to_string())),
        Attempt::Found("hola".to_string())
    );
    assert_eq!(
        translate(&catalog, 2, Some("hola".to_string())),
        Attempt::Found("hola".to_string())
    );
}

#[test]
fn failure_moves_to_the_next_engine() {
    let catalog = three_engines();
    assert_eq!(translate(&catalog, 0, None), Attempt::Ask(1));
    assert_eq!(translate(&catalog, 1, None), Attempt::Ask(2));
}

#[test]
fn failure_of_the_last_engine_exhausts_the_search() {
    let catalog = three_engines();
    assert_eq!(translate(&catalog, 2, None), Attempt::Exhausted);
}

#[test]
fn position_beyond_the_catalog_exhausts_the_search() {
    let catalog = three_engines();
    assert_eq!(translate(&catalog, 3, None), Attempt::Exhausted);
    assert_eq!(translate(&catalog, usize::MAX, None), Attempt::Exhausted);
    assert_eq!(translate(&Catalog::new(Vec::new()), 0, None), Attempt::Exhausted);
}

#[test]
fn whole_search_asks_in_catalog_order_up_to_the_first_translation() {
    let catalog = three_engines();
    let outcomes = [None, Some("hola".to_string()), Some("buenas".to_string())];
    let mut asked = Vec::new();
    let mut attempt = begin(&catalog);
    let found = loop {
        match attempt {
            Attempt::Ask(position) => {
                asked.push(position);
                attempt = translate(&catalog, position, outcomes[position].clone());
            }
            Attempt::Found(translation) => break Some(translation),
            Attempt::Exhausted => break None,
        }
    };
    assert_eq!(found, Some("hola".to_string()));
    assert_eq!(asked, vec![0, 1]);
}
