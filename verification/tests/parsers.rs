//! Parsing of received messages.

use wamp_proto::dict::Dict;
use wamp_proto::json::Json;
use wamp_proto::proto::rx::{self, RxMessage};
use wamp_proto::transport::websocket::parsers::helpers::{
    json_to_tv, parse_arguments, parse_arguments_kw, parse_details, parse_id, parse_uri,
};
use wamp_proto::transport::websocket::parsers::{
    parse_abort, parse_error, parse_event, parse_goodbye, parse_message, parse_subscribed,
    parse_unsubscribed, parse_welcome, Message, MessageParseError,
};
use wamp_proto::transport::TransportableValue as TV;
use wamp_proto::{GlobalScope, Id, RouterScope, SessionScope, Uri, MAX_ID_VAL};

fn json(text: &str) -> Json {
    Json::parse(text).unwrap()
}

#[test]
fn json_to_tv_test() {
    assert_eq!(Some(TV::Integer(4)), json_to_tv(&json("4")));
    assert_eq!(Some(TV::Integer(0)), json_to_tv(&json("0")));
    assert_eq!(
        Some(TV::Integer(0x7FFF_FFFF_FFFF_FFFF)),
        json_to_tv(&json("9223372036854775807"))
    );
    assert_eq!(None, json_to_tv(&json("-1")));
    assert_eq!(None, json_to_tv(&json("-3")));

    assert_eq!(
        Some(TV::List(vec![
            TV::Integer(1),
            TV::Integer(2),
            TV::String("asdf".into())
        ])),
        json_to_tv(&json(r#"[1, 2, "asdf"]"#))
    );
}

#[test]
fn parse_details_test() {
    assert!(parse_details(&json("5")).is_err());
    assert!(parse_details(&json(r#""asdf""#)).is_err());
    assert!(parse_details(&json(r#"[1, 2, "asdf"]"#)).is_err());

    let result = parse_details(&json(r#"{ "a": 1234, "b": [2, 4]}"#));

    let mut expected_result = Dict::new();
    expected_result.insert("a".into(), TV::Integer(1234));
    expected_result.insert("b".into(), TV::List(vec![TV::Integer(2), TV::Integer(4)]));

    assert_eq!(expected_result, result.unwrap());
}

#[test]
fn parse_id_test() {
    assert!(parse_id::<GlobalScope>(&json(r#""asdf""#)).is_err());
    assert!(parse_id::<GlobalScope>(&json("[1, 2]")).is_err());
    assert_eq!(
        Id::<GlobalScope>::from_raw_value(1234),
        parse_id::<GlobalScope>(&json("1234")).unwrap()
    );
    assert_eq!(
        Id::<GlobalScope>::from_raw_value(MAX_ID_VAL),
        parse_id::<GlobalScope>(&json(&MAX_ID_VAL.to_string())).unwrap()
    );
    assert!(parse_id::<GlobalScope>(&json(&(MAX_ID_VAL + 1).to_string())).is_err());
}

#[test]
fn parse_uri_test() {
    assert!(parse_uri(&json("1")).is_err());
    assert!(parse_uri(&json("[1, 2, 3]")).is_err());
    assert_eq!(
        Uri::raw("asdf.ghjk".into()),
        parse_uri(&json(r#""asdf.ghjk""#)).unwrap()
    );
    assert!(parse_uri(&json(r##""a.#.b""##)).is_err());
}

#[test]
fn parse_arguments_test() {
    assert!(parse_arguments(&json(r#""asdf""#)).is_err());
    assert!(parse_arguments(&json(r#"{ "a": 1, "b": [1, "asdf"] }"#))
    .is_err());

    let result = parse_arguments(&json(r#"["asdf", 1, 4]"#)).unwrap();
    let expected_result = vec![TV::String("asdf".into()), TV::Integer(1), TV::Integer(4)];
    assert_eq!(expected_result, result);
}

#[test]
fn parse_arguments_kw_test() {
    assert!(parse_arguments_kw(&json("5")).is_err());
    assert!(parse_arguments_kw(&json(r#""asdf""#)).is_err());
    assert!(parse_arguments_kw(&json(r#"[1, 2, "asdf"]"#)).is_err());

    let result = parse_arguments_kw(&json(r#"{ "a": 1234, "b": [2, 4]}"#));

    let mut expected_result = Dict::new();
    expected_result.insert("a".into(), TV::Integer(1234));
    expected_result.insert("b".into(), TV::List(vec![TV::Integer(2), TV::Integer(4)]));

    assert_eq!(expected_result, result.unwrap());
}

#[test]
fn parse_mssage_test() {
    println!("Scenario 0: received non-Text messages");
    assert!(parse_message(Message::Binary(vec![0; 10]))
        .unwrap()
        .is_none());
    assert!(parse_message(Message::Close).unwrap().is_none());
    assert!(parse_message(Message::Ping(vec![0; 10])).unwrap().is_none());
    assert!(parse_message(Message::Pong(vec![0; 10])).unwrap().is_none());

    println!("Scenario 1: happy path received WELCOME");
    assert_eq!(
        RxMessage::Welcome(rx::Welcome {
            session: Id::<GlobalScope>::from_raw_value(12345),
            details: {
                let mut details = Dict::new();
                details.insert("x".into(), TV::Integer(1));
                details.insert("y".into(), TV::Bool(true));
                details
            }
        }),
        parse_message(Message::Text(r#"[2,12345,{"x":1,"y":true}]"#.into()))
            .unwrap()
            .unwrap()
    );

    println!("Scenario 2: received non-JSON text");
    assert!(parse_message(Message::Text(r#"~!@#$%^&*("#.into())).is_err());

    println!("Scenario 3: received non-array JSON");
    assert!(parse_message(Message::Text(r#"{"x":1}"#.into())).is_err());

    println!("Scenario 4: received empty array");
    assert!(parse_message(Message::Text(r#"[]"#.into())).is_err());

    println!("Scenario 5: received non-numeric message code");
    assert!(parse_message(Message::Text(r#"["foobar", 1234, 2345]"#.into())).is_err());

    println!("Scenario 6: received unknown message code");
    assert!(parse_message(Message::Text(r#"[123456, 1234]"#.into())).unwrap().is_none());
}

#[test]
fn parse_welcome_test() {
    println!("Scenario 0: happy path");
    assert_eq!(
        rx::Welcome {
            session: Id::<GlobalScope>::from_raw_value(1234),
            details: {
                let mut details = Dict::new();
                details.insert("x".into(), TV::Integer(1));
                details.insert("y".into(), TV::Bool(true));
                details
            }
        },
        parse_welcome(&[json("1234"), json(r#"{"x": 1, "y": true}"#)]).unwrap()
    );

    println!("Scenario 1: fail to parse session ID");
    assert!(parse_welcome(&[json(r#""asdf""#), json(r#"{"x": 1, "y": true}"#)]).is_err());

    println!("Scenario 2: fail to parse details");
    assert!(parse_welcome(&[json("12345"), json(r#""foobar""#)]).is_err());

    println!("Scenario 3: not enough arguments");
    assert!(parse_welcome(&[json("12345")]).is_err());

    println!("Scenario 4: too many arguments");
    assert!(
        parse_welcome(&[json("12345"), json(r#"{"x": 1, "y": true}"#), json(r#""foobar""#)]).is_err()
    );
}

#[test]
fn parse_abort_test() {
    println!("Scenario 0: happy path");
    assert_eq!(
        rx::Abort {
            details: {
                let mut details = Dict::new();
                details.insert("x".into(), TV::Integer(1));
                details.insert("y".into(), TV::Bool(true));
                details
            },
            reason: Uri::raw("org.foo.bar.error".into()),
        },
        parse_abort(&[json(r#"{"x": 1, "y": true}"#), json(r#""org.foo.bar.error""#)]).unwrap()
    );

    println!("Scenario 1: fail to parse details");
    assert!(parse_abort(&[json(r#""foobar""#), json(r#""org.foo.bar.error""#)]).is_err());

    println!("Scenario 2: fail to parse reason (string)");
    assert!(parse_abort(&[json(r#"{"x": 1, "y": true}"#), json("12345")]).is_err());

    println!("Scenario 3: fail to parse reason (uri)");
    assert!(parse_abort(&[json(r#"{"x": 1, "y": true}"#), json(r#""..""#)]).is_err());

    println!("Scenario 4: not enough arguments");
    assert!(parse_abort(&[json(r#"{"x": 1, "y": true}"#)]).is_err());

    println!("Scenario 5: too many arguments");
    assert!(parse_abort(&[
        json(r#"{"x": 1, "y": true}"#),
        json(r#""org.foo.bar.error""#),
        json("12345"),
    ])
    .is_err());
}

#[test]
fn parse_error_test() {
    println!("Scenario 0: happy path (no args)");
    assert_eq!(
        rx::Error {
            request_type: 1234,
            request: Id::<SessionScope>::from_raw_value(2345),
            details: {
                let mut details = Dict::new();
                details.insert("x".into(), TV::Integer(1));
                details
            },
            error: Uri::raw("org.foo.bar.error".into()),
            arguments: None,
            arguments_kw: None,
        },
        parse_error(&[
            json("1234"),
            json("2345"),
            json(r#"{"x": 1}"#),
            json(r#""org.foo.bar.error""#)
        ])
        .unwrap()
    );

    println!("Scenario 1: happy path (args and kwargs)");
    assert_eq!(
        rx::Error {
            request_type: 1234,
            request: Id::<SessionScope>::from_raw_value(2345),
            details: {
                let mut details = Dict::new();
                details.insert("x".into(), TV::Integer(1));
                details
            },
            error: Uri::raw("org.foo.bar.error".into()),
            arguments: Some(vec![TV::Integer(1), TV::String("asdf".into())]),
            arguments_kw: Some({
                let mut args = Dict::new();
                args.insert("y".into(), TV::Bool(true));
                args
            }),
        },
        parse_error(&[
            json("1234"),
            json("2345"),
            json(r#"{"x": 1}"#),
            json(r#""org.foo.bar.error""#),
            json(r#"[1, "asdf"]"#),
            json(r#"{"y": true}"#)
        ])
        .unwrap()
    );

    println!("Scenario 2: happy path (kwargs only)");
    assert_eq!(
        rx::Error {
            request_type: 1234,
            request: Id::<SessionScope>::from_raw_value(2345),
            details: {
                let mut details = Dict::new();
                details.insert("x".into(), TV::Integer(1));
                details
            },
            error: Uri::raw("org.foo.bar.error".into()),
            arguments: Some(vec![]),
            arguments_kw: Some({
                let mut args = Dict::new();
                args.insert("y".into(), TV::Bool(true));
                args
            }),
        },
        parse_error(&[
            json("1234"),
            json("2345"),
            json(r#"{"x": 1}"#),
            json(r#""org.foo.bar.error""#),
            json("[]"),
            json(r#"{"y": true}"#)
        ])
        .unwrap()
    );

    println!("Scenario 3: happy path (args only)");
    assert_eq!(
        rx::Error {
            request_type: 1234,
            request: Id::<SessionScope>::from_raw_value(2345),
            details: {
                let mut details = Dict::new();
                details.insert("x".into(), TV::Integer(1));
                details
            },
            error: Uri::raw("org.foo.bar.error".into()),
            arguments: Some(vec![TV::Integer(1), TV::String("asdf".into())]),
            arguments_kw: None,
        },
        parse_error(&[
            json("1234"),
            json("2345"),
            json(r#"{"x": 1}"#),
            json(r#""org.foo.bar.error""#),
            json(r#"[1, "asdf"]"#),
        ])
        .unwrap()
    );

    println!("Scenario 4: fail to parse request type");
    assert!(parse_error(&[
        json(r#""asdf""#),
        json("1234"),
        json("{}"),
        json(r#""org.foo.bar.error""#)
    ])
    .is_err());

    println!("Scenario 5: fail to parse request ID");
    assert!(parse_error(&[
        json("1234"),
        json(r#""asdf""#),
        json("{}"),
        json(r#""org.foo.bar.error""#)
    ])
    .is_err());

    println!("Scenario 6: fail to parse details");
    assert!(parse_error(&[
        json("1234"),
        json("2345"),
        json("[]"),
        json(r#""org.foo.bar.error""#)
    ])
    .is_err());

    println!("Scenario 7: fail to parse error (string)");
    assert!(
        parse_error(&[json("1234"), json("2345"), json("{}"), json("[true, 1, false]")]).is_err()
    );

    println!("Scenario 8: fail to parse error (uri)");
    assert!(parse_error(&[json("1234"), json("2345"), json("{}"), json(r##""a.#.b""##)]).is_err());

    println!("Scenario 9: fail to parse arguments");
    assert!(
        parse_error(&[json("1234"), json("2345"), json("{}"), json(r#""a.b""#), json("{}")]).is_err()
    );

    println!("Scenario 10: fail to parse keyword arguments");
    assert!(parse_error(&[
        json("1234"),
        json("2345"),
        json("{}"),
        json(r#""a.b""#),
        json("[]"),
        json(r#""a.b.c.d""#)
    ])
    .is_err());
}

#[test]
fn parse_goodbye_test() {
    println!("Scenario 0: happy path");
    assert_eq!(
        rx::Goodbye {
            details: {
                let mut details = Dict::new();
                details.insert("x".into(), TV::Integer(1));
                details.insert("y".into(), TV::Bool(true));
                details
            },
            reason: Uri::raw("org.foo.bar.closed".into()),
        },
        parse_goodbye(&[json(r#"{"x": 1, "y": true}"#), json(r#""org.foo.bar.closed""#)]).unwrap()
    );

    println!("Scenario 1: fail to parse details");
    assert!(parse_goodbye(&[json(r#""foobar""#), json(r#""org.foo.bar.closed""#)]).is_err());

    println!("Scenario 2: fail to parse reason (string)");
    assert!(parse_goodbye(&[json(r#"{"x": 1, "y": true}"#), json("12345")]).is_err());

    println!("Scenario 3: fail to parse reason (uri)");
    assert!(parse_goodbye(&[json(r#"{"x": 1, "y": true}"#), json(r#""..""#)]).is_err());

    println!("Scenario 4: not enough arguments");
    assert!(parse_goodbye(&[json(r#"{"x": 1, "y": true}"#)]).is_err());

    println!("Scenario 5: too many arguments");
    assert!(parse_goodbye(&[
        json(r#"{"x": 1, "y": true}"#),
        json(r#""org.foo.bar.closed""#),
        json("12345"),
    ])
    .is_err());
}

#[test]
fn parse_subscribed_test() {
    println!("Scenario 0: happy path");
    assert_eq!(
        rx::Subscribed {
            request: Id::<SessionScope>::from_raw_value(12345),
            subscription: Id::<RouterScope>::from_raw_value(23456),
        },
        parse_subscribed(&[json("12345"), json("23456")]).unwrap()
    );

    println!("Scenario 1: fail to parse request");
    assert!(parse_subscribed(&[json(r#""foobar""#), json("23456")]).is_err());

    println!("Scenario 2: fail to parse subscription");
    assert!(parse_subscribed(&[json("12345"), json(r#""foobar""#)]).is_err());

    println!("Scenario 3: not enough arguments");
    assert!(parse_subscribed(&[json("12345")]).is_err());

    println!("Scenario 4: too many arguments");
    assert!(parse_subscribed(&[json("12345"), json("23456"), json("34567")]).is_err());
}

#[test]
fn parse_unsubscribed_test() {
    println!("Scenario 0: happy path");
    assert_eq!(
        rx::Unsubscribed {
            request: Id::<SessionScope>::from_raw_value(12345),
        },
        parse_unsubscribed(&[json("12345")]).unwrap()
    );

    println!("Scenario 1: fail to parse request");
    assert!(parse_unsubscribed(&[json(r#""foobar""#)]).is_err());

    println!("Scenario 2: not enough arguments");
    assert!(parse_unsubscribed(&[]).is_err());

    println!("Scenario 3: too many arguments");
    assert!(parse_unsubscribed(&[json("12345"), json("23456")]).is_err());
}

#[test]
fn parse_event_test() {
    println!("Scenario 0: happy path (no args)");
    assert_eq!(
        rx::Event {
            subscription: Id::<RouterScope>::from_raw_value(12345),
            publication: Id::<GlobalScope>::from_raw_value(23456),
            details: {
                let mut details = Dict::new();
                details.insert("x".into(), TV::String("foo".into()));
                details.insert("y".into(), TV::Bool(true));
                details
            },
            arguments: None,
            arguments_kw: None,
        },
        parse_event(&[json("12345"), json("23456"), json(r#"{"x": "foo", "y": true}"#)]).unwrap()
    );

    println!("Scenario 1: happy path (args only)");
    assert_eq!(
        rx::Event {
            subscription: Id::<RouterScope>::from_raw_value(12345),
            publication: Id::<GlobalScope>::from_raw_value(23456),
            details: {
                let mut details = Dict::new();
                details.insert("x".into(), TV::String("foo".into()));
                details.insert("y".into(), TV::Bool(true));
                details
            },
            arguments: Some(vec![TV::Integer(1), TV::String("foobar".into())]),
            arguments_kw: None,
        },
        parse_event(&[
            json("12345"),
            json("23456"),
            json(r#"{"x": "foo", "y": true}"#),
            json(r#"[1, "foobar"]"#),
        ])
        .unwrap()
    );

    println!("Scenario 2: happy path (args and kwargs)");
    assert_eq!(
        rx::Event {
            subscription: Id::<RouterScope>::from_raw_value(12345),
            publication: Id::<GlobalScope>::from_raw_value(23456),
            details: {
                let mut details = Dict::new();
                details.insert("x".into(), TV::String("foo".into()));
                details.insert("y".into(), TV::Bool(true));
                details
            },
            arguments: Some(vec![TV::Integer(1), TV::String("foobar".into())]),
            arguments_kw: Some({
                let mut args = Dict::new();
                args.insert("a".into(), TV::Integer(1));
                args.insert("b".into(), TV::Integer(2));
                args
            }),
        },
        parse_event(&[
            json("12345"),
            json("23456"),
            json(r#"{"x": "foo", "y": true}"#),
            json(r#"[1, "foobar"]"#),
            json(r#"{"a": 1, "b": 2}"#),
        ])
        .unwrap()
    );

    println!("Scenario 3: fail to parse subscription");
    assert!(parse_event(&[json(r#""foobar""#), json("23456"), json("{}")]).is_err());

    println!("Scenario 4: fail to parse publication");
    assert!(parse_event(&[json("12345"), json(r#""foobar""#), json("{}")]).is_err());

    println!("Scenario 5: fail to parse details");
    assert!(parse_event(&[json("12345"), json("23456"), json(r#""foobar""#)]).is_err());

    println!("Scenario 6: fail to parse arguments");
    assert!(
        parse_event(&[json("12345"), json("23456"), json("{}"), json(r#""not a list""#)]).is_err()
    );

    println!("Scenario 7: fail to parse keyword arguments");
    assert!(parse_event(&[
        json("12345"),
        json("23456"),
        json("{}"),
        json("[]"),
        json(r#""not a dict""#),
    ])
    .is_err());

    println!("Scenario 8: too many arguments");
    assert!(parse_event(&[
        json("12345"),
        json("23456"),
        json("{}"),
        json("[]"),
        json("{}"),
        json(r#""foobar""#),
    ])
    .is_err());

    println!("Scenario 9: not enough arguments");
    assert!(parse_event(&[json("12345"), json("23456")]).is_err());
}

fn outcome(text: &str) -> Result<Option<RxMessage>, MessageParseError> {
    parse_message(Message::Text(text.into()))
}

#[test]
fn parse_message_errors() {
    assert!(matches!(outcome("~"), Err(MessageParseError::BadJson(_))));
    assert!(matches!(outcome("{}"), Err(MessageParseError::NonArrayJson)));
    assert!(matches!(outcome("[]"), Err(MessageParseError::EmptyArray)));
    assert!(matches!(
        outcome("[-2]"),
        Err(MessageParseError::NonIntegerMessageCode)
    ));
    assert!(matches!(
        outcome("[2,1]"),
        Err(MessageParseError::BadMessageLength)
    ));
    assert!(matches!(
        outcome("[2,1.5,{}]"),
        Err(MessageParseError::IdNotInteger)
    ));
    assert!(matches!(
        outcome("[2,9007199254740993,{}]"),
        Err(MessageParseError::IdOutOfRange)
    ));
    assert!(matches!(
        outcome("[2,1,[]]"),
        Err(MessageParseError::DetailsNotDictionary)
    ));
    assert!(matches!(
        outcome(r#"[3,{},"a..b"]"#),
        Err(MessageParseError::BadUri)
    ));
    assert!(matches!(
        outcome("[6,{},7]"),
        Err(MessageParseError::UriNotString)
    ));
    assert!(matches!(
        outcome(r#"[8,"x",1,{},"a.b"]"#),
        Err(MessageParseError::ErrorRequestTypeNotInt)
    ));
    assert!(matches!(
        outcome(r#"[8,32,1,{},"a.b",{}]"#),
        Err(MessageParseError::ArgumentsNotList)
    ));
    assert!(matches!(
        outcome("[36,1,2,{},[],[]]"),
        Err(MessageParseError::ArguementsKwNotDictionary)
    ));
}

#[test]
fn first_bad_part_decides() {
    assert!(matches!(
        outcome(r#"[8,"x","y",[],7,{},[]]"#),
        Err(MessageParseError::ErrorRequestTypeNotInt)
    ));
    assert!(matches!(
        outcome(r#"[8,32,"y",[],7,{},[]]"#),
        Err(MessageParseError::IdNotInteger)
    ));
    assert!(matches!(
        outcome("[8,32,1,[],7,{},[]]"),
        Err(MessageParseError::DetailsNotDictionary)
    ));
    assert!(matches!(
        outcome("[8,32,1,{},7,{},[]]"),
        Err(MessageParseError::UriNotString)
    ));
    assert!(matches!(
        outcome(r#"[8,32,1,{},"a",{},[]]"#),
        Err(MessageParseError::ArgumentsNotList)
    ));
}

#[test]
fn largest_id_is_read() {
    let message = outcome("[33,9007199254740992,0]").unwrap().unwrap();
    assert_eq!(
        RxMessage::Subscribed(rx::Subscribed {
            request: Id::<SessionScope>::from_raw_value(MAX_ID_VAL),
            subscription: Id::<RouterScope>::from_raw_value(0),
        }),
        message
    );
}

#[test]
fn values_that_stand_for_none_are_left_out() {
    assert_eq!(None, json_to_tv(&json("null")));
    assert_eq!(None, json_to_tv(&json("1.0")));
    assert_eq!(None, json_to_tv(&json("18446744073709551616")));
    assert_eq!(
        Some(TV::Integer(u64::max_value())),
        json_to_tv(&json("18446744073709551615"))
    );
    assert_eq!(
        Some(TV::List(vec![TV::Bool(false), TV::List(vec![])])),
        json_to_tv(&json("[null, false, -1, [0.5]]"))
    );
    let mut dict = Dict::new();
    dict.insert("b".into(), TV::Integer(2));
    dict.insert("d".into(), TV::Dict(Dict::new()));
    assert_eq!(
        Some(TV::Dict(dict)),
        json_to_tv(&json(r#"{"a":null,"b":2,"c":-2,"d":{"e":1e3}}"#))
    );
}

#[test]
fn last_of_equal_keys_counts() {
    let mut dict = Dict::new();
    dict.insert("a".into(), TV::Integer(2));
    assert_eq!(
        Some(TV::Dict(dict)),
        json_to_tv(&json(r#"{"a":1,"a":2}"#))
    );
}

#[test]
fn published_is_skipped() {
    assert!(outcome("[17,1,2]").unwrap().is_none());
    assert!(outcome("[1]").unwrap().is_none());
}

#[test]
fn parse_error_texts() {
    let cases = vec![
        (MessageParseError::NonArrayJson, "received non-array JSON"),
        (MessageParseError::EmptyArray, "received empty array"),
        (
            MessageParseError::NonIntegerMessageCode,
            "received non-integer message code",
        ),
        (
            MessageParseError::BadMessageLength,
            "received message with bad length",
        ),
        (MessageParseError::IdNotInteger, "received non-integer ID"),
        (MessageParseError::IdOutOfRange, "recieved out-of-range ID"),
        (
            MessageParseError::DetailsNotDictionary,
            "received non-dictionary details",
        ),
        (MessageParseError::BadUri, "received invalid URI"),
        (MessageParseError::UriNotString, "received non-string URI"),
        (
            MessageParseError::ErrorRequestTypeNotInt,
            "received non-integer request type in ERROR message",
        ),
        (
            MessageParseError::ArgumentsNotList,
            "received non-list arguments",
        ),
        (
            MessageParseError::ArguementsKwNotDictionary,
            "received non-dictionary keyword arguments",
        ),
        (
            MessageParseError::BadJson("what".into()),
            "received bad JSON: what",
        ),
    ];
    for (error, text) in cases {
        assert_eq!(text, error.text());
    }
}

#[test]
fn bad_json_tells_why() {
    match outcome("[1,") {
        Err(MessageParseError::BadJson(reason)) => {
            assert_eq!("EOF while parsing a value at line 1 column 3", reason)
        }
        _ => panic!("the text is not JSON"),
    }
}
