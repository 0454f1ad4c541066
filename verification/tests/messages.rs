//! Messages that are sent.

use wamp_proto::dict::Dict;
use wamp_proto::proto::rx::{self, RxMessage};
use wamp_proto::proto::TxMessage;
use wamp_proto::transport::websocket::parsers::{parse_message, Message, MessageParseError};
use wamp_proto::transport::websocket::{
    message_text, step_for_event, step_for_parsed, StreamEvent, StreamStep, PROTOCOL,
    PROTOCOL_HEADER,
};
use wamp_proto::transport::{TransportError, TransportableValue as TV};
use wamp_proto::{Id, Uri};

fn dict(key: &str, value: u64) -> Dict<TV> {
    let mut dict = Dict::new();
    dict.insert(key.into(), TV::Integer(value));
    dict
}

fn uri(text: &str) -> Uri {
    Uri::raw(text.into())
}

fn check(message: TxMessage, code: u64, text: &str) {
    assert_eq!(code, message.get_message_code());
    assert_eq!(text, message.to_json().write().unwrap());
    assert_eq!(text, message_text(&message).unwrap());
}

#[test]
fn session_messages_are_written() {
    check(
        TxMessage::Hello {
            realm: uri("org.test"),
            details: dict("a", 1),
        },
        1,
        r#"[1,"org.test",{"a":1}]"#,
    );
    check(
        TxMessage::Abort {
            details: Dict::new(),
            reason: uri("x.y"),
        },
        3,
        r#"[3,{},"x.y"]"#,
    );
    check(
        TxMessage::Goodbye {
            details: dict("b", 2),
            reason: uri("x.z"),
        },
        6,
        r#"[6,{"b":2},"x.z"]"#,
    );
}

fn error(arguments: Option<Vec<TV>>, arguments_kw: Option<Dict<TV>>) -> TxMessage {
    TxMessage::Error {
        request_type: 68,
        request: Id::from_raw_value(9),
        details: Dict::new(),
        error: uri("e"),
        arguments,
        arguments_kw,
    }
}

#[test]
fn arguments_are_written() {
    check(error(None, None), 8, r#"[8,68,9,{},"e"]"#);
    check(
        error(Some(vec![TV::Bool(true)]), None),
        8,
        r#"[8,68,9,{},"e",[true]]"#,
    );
    check(
        error(Some(vec![]), Some(dict("k", 0))),
        8,
        r#"[8,68,9,{},"e",[],{"k":0}]"#,
    );
    check(
        error(None, Some(dict("k", 0))),
        8,
        r#"[8,68,9,{},"e"]"#,
    );
}

#[test]
fn requests_are_written() {
    check(
        TxMessage::Publish {
            request: Id::from_raw_value(1),
            options: dict("o", 3),
            topic: uri("t"),
            arguments: Some(vec![]),
            arguments_kw: Some(Dict::new()),
        },
        16,
        r#"[16,1,{"o":3},"t",[],{}]"#,
    );
    check(
        TxMessage::Subscribe {
            request: Id::from_raw_value(2),
            options: Dict::new(),
            topic: uri("t"),
        },
        32,
        r#"[32,2,{},"t"]"#,
    );
    check(
        TxMessage::Unsubscribe {
            request: Id::from_raw_value(3),
            subscription: Id::from_raw_value(4),
        },
        34,
        "[34,3,4]",
    );
    check(
        TxMessage::Call {
            request: Id::from_raw_value(5),
            options: Dict::new(),
            procedure: uri("p"),
            arguments: Some(vec![TV::Integer(1)]),
            arguments_kw: None,
        },
        48,
        r#"[48,5,{},"p",[1]]"#,
    );
    check(
        TxMessage::Register {
            request: Id::from_raw_value(6),
            options: Dict::new(),
            procedure: uri("p"),
        },
        64,
        r#"[64,6,{},"p"]"#,
    );
    check(
        TxMessage::Unregister {
            request: Id::from_raw_value(7),
            registration: Id::from_raw_value(8),
        },
        66,
        "[66,7,8]",
    );
    check(
        TxMessage::Yield {
            request: Id::from_raw_value(9),
            options: Dict::new(),
            arguments: Some(vec![]),
            arguments_kw: Some(dict("r", 1)),
        },
        70,
        r#"[70,9,{},[],{"r":1}]"#,
    );
}

fn read_back(message: &TxMessage) -> RxMessage {
    parse_message(Message::Text(message_text(message).unwrap()))
        .unwrap()
        .unwrap()
}

#[test]
fn messages_are_read_back() {
    assert_eq!(
        RxMessage::Abort(rx::Abort {
            details: dict("d", 7),
            reason: uri("a.b"),
        }),
        read_back(&TxMessage::Abort {
            details: dict("d", 7),
            reason: uri("a.b"),
        })
    );
    assert_eq!(
        RxMessage::Goodbye(rx::Goodbye {
            details: Dict::new(),
            reason: uri("a.b"),
        }),
        read_back(&TxMessage::Goodbye {
            details: Dict::new(),
            reason: uri("a.b"),
        })
    );
    assert_eq!(
        RxMessage::Error(rx::Error {
            request_type: 68,
            request: Id::from_raw_value(9),
            details: Dict::new(),
            error: uri("e"),
            arguments: Some(vec![TV::Integer(5)]),
            arguments_kw: Some(dict("k", 6)),
        }),
        read_back(&error(Some(vec![TV::Integer(5)]), Some(dict("k", 6))))
    );
}

#[test]
fn key_value_data_alone_is_not_sent() {
    match read_back(&error(None, Some(dict("k", 6)))) {
        RxMessage::Error(error) => {
            assert!(error.arguments.is_none());
            assert!(error.arguments_kw.is_none());
        }
        _ => panic!("an ERROR message was written"),
    }
}

#[test]
fn stream_passes_over_what_is_skipped() {
    assert!(matches!(
        step_for_event(StreamEvent::Pending),
        StreamStep::Pending
    ));
    assert!(matches!(
        step_for_event(StreamEvent::Ended),
        StreamStep::Ended
    ));
    assert!(matches!(
        step_for_event(StreamEvent::Received(Message::Ping(vec![1]))),
        StreamStep::PollAgain
    ));
    assert!(matches!(
        step_for_event(StreamEvent::Received(Message::Text("[99]".into()))),
        StreamStep::PollAgain
    ));
    assert!(matches!(
        step_for_event(StreamEvent::Received(Message::Text("[35,6]".into()))),
        StreamStep::Item(Ok(RxMessage::Unsubscribed(_)))
    ));
}

#[test]
fn stream_reports_errors() {
    match step_for_event(StreamEvent::Failed("broken".into())) {
        StreamStep::Item(Err(TransportError::NetworkError(error))) => assert_eq!("broken", error),
        _ => panic!("a failure is reported"),
    }
    match step_for_event(StreamEvent::Received(Message::Text("[2]".into()))) {
        StreamStep::Item(Err(TransportError::ParseError(error))) => {
            assert_eq!("received message with bad length", error)
        }
        _ => panic!("a message that cannot be parsed is reported"),
    }
    match step_for_parsed(Err(MessageParseError::BadUri)) {
        StreamStep::Item(Err(TransportError::ParseError(error))) => {
            assert_eq!("received invalid URI", error)
        }
        _ => panic!("a message that cannot be parsed is reported"),
    }
}

#[test]
fn websocket_protocol() {
    assert_eq!("Sec-Websocket-Protocol", PROTOCOL_HEADER);
    assert_eq!("wamp.2.json", PROTOCOL);
}

#[test]
fn requests_are_skipped_when_read() {
    let messages = vec![
        TxMessage::Hello {
            realm: uri("r"),
            details: Dict::new(),
        },
        TxMessage::Subscribe {
            request: Id::from_raw_value(1),
            options: Dict::new(),
            topic: uri("t"),
        },
        TxMessage::Unregister {
            request: Id::from_raw_value(1),
            registration: Id::from_raw_value(2),
        },
    ];
    for message in messages {
        let text = message_text(&message).unwrap();
        assert!(parse_message(Message::Text(text)).unwrap().is_none());
    }
}
