//! The generic JSON parser, exercised on concrete documents.

use youtube_dl::json::{Json, JsonError};

fn parse(s: &str) -> Json {
    youtube_dl::json::parse_json(s).unwrap()
}

#[test]
fn parses_scalars() {
    assert!(matches!(parse("null"), Json::Null));
    assert!(matches!(parse("true"), Json::Bool(true)));
    assert!(matches!(parse("false"), Json::Bool(false)));
    match parse("42") {
        Json::Num(t) => assert_eq!(t, "42"),
        _ => panic!("expected a number"),
    }
    match parse("-12.5e3") {
        Json::Num(t) => assert_eq!(t, "-12.5e3"),
        _ => panic!("expected a number"),
    }
    match parse("\"hello\"") {
        Json::Str(s) => assert_eq!(s, "hello"),
        _ => panic!("expected a string"),
    }
}

#[test]
fn parses_whitespace_and_nesting() {
    let doc = " { \"a\" : [ 1 , 2.0 , \"three\" , { \"b\" : null } ] }\n";
    match parse(doc) {
        Json::Obj(pairs) => {
            assert_eq!(pairs.len(), 1);
            assert_eq!(pairs[0].0, "a");
            match &pairs[0].1 {
                Json::Arr(items) => {
                    assert_eq!(items.len(), 4);
                    assert!(matches!(&items[0], Json::Num(t) if t == "1"));
                    assert!(matches!(&items[1], Json::Num(t) if t == "2.0"));
                    assert!(matches!(&items[2], Json::Str(s) if s == "three"));
                    assert!(matches!(&items[3], Json::Obj(inner) if inner.len() == 1));
                },
                _ => panic!("expected an array"),
            }
        },
        _ => panic!("expected an object"),
    }
}

#[test]
fn parses_empty_containers() {
    assert!(matches!(parse("[]"), Json::Arr(items) if items.is_empty()));
    assert!(matches!(parse("{}"), Json::Obj(pairs) if pairs.is_empty()));
    assert!(matches!(parse("[ ]"), Json::Arr(items) if items.is_empty()));
    assert!(matches!(parse("{ }"), Json::Obj(pairs) if pairs.is_empty()));
}

#[test]
fn decodes_escapes() {
    match parse("\"a\\n\\t\\\"\\\\\\/b\"") {
        Json::Str(s) => assert_eq!(s, "a\n\t\"\\/b"),
        _ => panic!("expected a string"),
    }
    match parse("\"\\u0041\\u00e9\\u20ac\"") {
        Json::Str(s) => assert_eq!(s, "A\u{e9}\u{20ac}"),
        _ => panic!("expected a string"),
    }
    // a surrogate pair encodes one character beyond the basic plane
    match parse("\"\\ud834\\udd1e\"") {
        Json::Str(s) => assert_eq!(s, "\u{1d11e}"),
        _ => panic!("expected a string"),
    }
}

#[test]
fn rejects_malformed_documents() {
    for doc in [
        "",
        "{",
        "[1,",
        "[1,]",
        "{\"a\":}",
        "{\"a\" 1}",
        "tru",
        "nulll",
        "01",
        "1.",
        "1e",
        "\"unterminated",
        "\"bad \\q escape\"",
        "\"lone \\ud834 surrogate\"",
        "[] []",
        "+5",
    ] {
        assert_eq!(
            youtube_dl::json::parse_json(doc).unwrap_err(),
            JsonError::Syntax,
            "should reject: {doc}"
        );
    }
}

#[test]
fn later_duplicate_members_win() {
    let j = parse("{\"k\": 1, \"k\": 2}");
    match j.get("k") {
        Some(Json::Num(t)) => assert_eq!(t, "2"),
        _ => panic!("expected the later member"),
    }
}

#[test]
fn member_lookup() {
    let j = parse("{\"a\": 1, \"b\": \"x\"}");
    assert!(matches!(j.get("b"), Some(Json::Str(s)) if s == "x"));
    assert!(j.get("missing").is_none());
    assert!(parse("[1]").get("a").is_none());
}
