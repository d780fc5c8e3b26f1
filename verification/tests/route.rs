use translate_api::route::{parse_path, rejection, reply, Reply, Route};

fn route(word: &str, language: &str) -> Option<Route> {
    Some(Route { word: word.to_string(), language: language.to_string() })
}

#[test]
fn path_names_word_and_language() {
    assert_eq!(parse_path("/translate/hello/to/es"), route("hello", "es"));
}

#[test]
fn word_and_language_are_taken_verbatim() {
    assert_eq!(parse_path("/translate/Hello World/to/zh-TW"), route("Hello World", "zh-TW"));
    assert_eq!(parse_path("/translate/\u{732b}/to/en"), route("\u{732b}", "en"));
    assert_eq!(parse_path("/translate/to/to/to"), route("to", "to"));
}

#[test]
fn empty_word_and_empty_language_are_accepted() {
    assert_eq!(parse_path("/translate//to/es"), route("", "es"));
    assert_eq!(parse_path("/translate/hello/to/"), route("hello", ""));
    assert_eq!(parse_path("/translate//to/"), route("", ""));
}

#[test]
fn other_shapes_are_rejected() {
    assert_eq!(parse_path(""), None);
    assert_eq!(parse_path("/"), None);
    assert_eq!(parse_path("/translate"), None);
    assert_eq!(parse_path("/translate/"), None);
    assert_eq!(parse_path("/translate/hello"), None);
    assert_eq!(parse_path("/translate/hello/to"), None);
    assert_eq!(parse_path("/translate/hello/into/es"), None);
    assert_eq!(parse_path("/translat/hello/to/es"), None);
    assert_eq!(parse_path("/Translate/hello/to/es"), None);
    assert_eq!(parse_path("translate/hello/to/es"), None);
    assert_eq!(parse_path("x/translate/hello/to/es"), None);
    assert_eq!(parse_path("/api/translate/hello/to/es"), None);
}

#[test]
fn surplus_segments_are_rejected() {
    assert_eq!(parse_path("/translate/hello/to/es/"), None);
    assert_eq!(parse_path("/translate/hello/to/es/now"), None);
    assert_eq!(parse_path("/translate/hello/world/to/es"), None);
    assert_eq!(parse_path("/translate/hello//to/es"), None);
}

#[test]
fn translation_is_replied_as_it_is() {
    assert_eq!(
        reply(Some("hola".to_string())),
        Reply { status: 200, body: "hola".to_string() }
    );
}

#[test]
fn absence_is_replied_as_not_found() {
    assert_eq!(
        reply(None),
        Reply { status: 404, body: "no translation available".to_string() }
    );
}

#[test]
fn malformed_request_is_replied_apart_from_absence() {
    assert_eq!(rejection(), Reply { status: 422, body: "bad request".to_string() });
    assert_ne!(rejection().status, reply(None).status);
}
