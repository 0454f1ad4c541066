//! URIs.

use wamp_proto::json::Json;
use wamp_proto::{known_uri, Uri};

#[test]
fn uri_raw_test() {
    assert_eq!("foo", Uri::raw("foo".into()).to_raw());
    assert_eq!("~~~~1234_*()", Uri::raw("~~~~1234_*()".into()).to_raw());
}

#[test]
fn uri_relaxed_test() {
    let positive_tests = [
        "a.b.c.d123",
        "com.foobar.xyz~`$@!%^%",
        "aaaaaaaaaaaaaaaaaaaaaaaaaaaaa",
        "a,.b,c.d",
        "A.b.C.d",
        "wamp.f",
    ];
    let negative_tests = ["a.#.c.d", "..", "a..b.c.d", "a. .b.c.d", "a .b.c.d"];

    for &test in positive_tests.iter() {
        println!("asserting that {} is a valid relaxed URI", test);
        assert!(Uri::relaxed(test).is_some());
    }

    for &test in negative_tests.iter() {
        println!("asserting that {} is an invalid relaxed URI", test);
        assert!(Uri::relaxed(test).is_none());
    }
}

#[test]
fn uri_strict_test() {
    let positive_tests = [
        "a.b.c.d",
        "aaaaaaaaaaaaaaaaaaaaaaaaaaaaa",
        "a_.b_c.d123",
        "..",
        "a..b.c.d",
        "wamp.f",
    ];
    let negative_tests = [
        "com.foobar.xyz~`$@!%^%",
        "A.b.C.d",
        "a.#.c.d",
        "a. .b.c.d",
        "a .b.c.d",
        "45.$$$",
        "-=-=-=-=-",
    ];

    for &test in positive_tests.iter() {
        println!("asserting that {} is a valid strict URI", test);
        assert!(Uri::strict(test).is_some());
    }

    for &test in negative_tests.iter() {
        println!("asserting that {} is an invalid strict URI", test);
        assert!(Uri::strict(test).is_none());
    }
}

#[test]
fn uri_serialization_test() {
    let uri = Uri::strict("a.b.c.d").unwrap();

    assert_eq!(r#""a.b.c.d""#, uri.to_json().write().unwrap());
}

#[test]
fn uri_deserialization_test() {
    let value = Json::parse(r#""a.b.c.d""#).unwrap();
    assert_eq!(
        Uri::raw("a.b.c.d".into()),
        Uri::from_json(&value).unwrap()
    );

    let value = Json::parse(r#"["a", 1]"#).unwrap();
    assert!(Uri::from_json(&value).is_none());

    let value = Json::parse("1").unwrap();
    assert!(Uri::from_json(&value).is_none());
}

#[test]
fn empty_text() {
    assert!(Uri::relaxed("").is_none());
    assert!(Uri::strict("").is_some());
}

#[test]
fn white_space_of_any_kind_is_refused() {
    for text in vec!["a\tb", "a\u{85}b", "a\u{a0}b", "a\u{2003}b", "a\u{3000}", "\n"] {
        assert!(Uri::relaxed(text).is_none());
    }
    assert!(Uri::relaxed("a\u{200b}b").is_some());
    assert!(Uri::relaxed("\u{e9}.\u{4e2d}").is_some());
    assert!(Uri::strict("\u{e9}").is_none());
}

#[test]
fn ends_of_uris() {
    assert!(Uri::relaxed("a.").is_none());
    assert!(Uri::relaxed(".a").is_none());
    assert!(Uri::strict("a.").is_some());
    assert!(Uri::strict(".a").is_some());
    assert!(Uri::relaxed("a\n").is_none());
    assert!(Uri::strict("a\n").is_none());
}

#[test]
fn strict_without_empty_components_is_relaxed() {
    for text in vec!["a", "a.b", "0.9_z", "wamp.error.x"] {
        assert!(Uri::strict(text).is_some());
        assert!(Uri::relaxed(text).is_some());
    }
    for text in vec!["", ".", "a.", ".a", "a..b"] {
        assert!(Uri::strict(text).is_some());
        assert!(Uri::relaxed(text).is_none());
    }
}

#[test]
fn uris_compare_with_texts() {
    assert!(Uri::raw("a.b".into()) == "a.b");
    assert!(Uri::raw("a.b".into()) != "a.c");
    assert_eq!(Uri::raw("a.b".into()).clone(), Uri::raw("a.b".into()));
}

#[test]
fn known_uris() {
    assert_eq!(
        "wamp.error.protocol_violation",
        known_uri::protocol_violation
    );
    assert_eq!(
        "wamp.error.goodbye_and_out",
        known_uri::session_close::goodbye_and_out
    );
    assert_eq!("wamp.error.invalid_uri", known_uri::interaction::invalid_uri);
    assert_eq!(
        "wamp.error.no_such_role",
        known_uri::authorization::no_such_role
    );
}
