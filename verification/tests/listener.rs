//! The transport that listens by itself.

use wamp_proto::json::Json;
use wamp_proto::pollable::Poll;
use wamp_proto::proto::TxMessage;
use wamp_proto::received::ReceivedValues;
use wamp_proto::transport::websocket::listener::{
    ListenerEvent, ListenerStep, SendError, WebsocketTransport, WebsocketTransportListener,
};
use wamp_proto::transport::websocket::parsers::{parse_message, Message};
use wamp_proto::transport::TransportableValue;
use wamp_proto::{Dict, GlobalScope, Id, RouterScope, SessionScope, Uri};

fn json(text: &str) -> Json {
    Json::parse(text).unwrap()
}

fn listener() -> WebsocketTransportListener {
    WebsocketTransportListener {
        received_values: ReceivedValues::default(),
    }
}

#[test]
fn handle_welcome_test() {
    let mut listener = listener();

    println!("Scenario 0: happy path");
    listener.handle_welcome(&[json("12345"), json(r#"{"x": 1, "y": true}"#)]);
    assert_eq!(1, listener.received_values.welcome.len());
    assert_eq!(1, listener.received_values.len());
    let val = match listener.received_values.welcome.poll_take_any(0) {
        Poll::Ready(val) => val,
        Poll::Pending => panic!("no message was added"),
    };
    if Id::<GlobalScope>::from_raw_value(12345) != val.session {
        panic!("session id {:?} did not match", val.session);
    }
    if 2 != val.details.len() {
        panic!("details dict {:?} did not match", val.details);
    }

    println!("Scenario 1: 'Session' is not a number");
    listener.handle_welcome(&[json(r#""foobar""#), json(r#"{"x": 1, "y": true}"#)]);
    assert_eq!(0, listener.received_values.len());

    println!("Scenario 2: 'Details' is not a dictionary");
    listener.handle_welcome(&[json("12345"), json(r#""foobar""#)]);
    assert_eq!(0, listener.received_values.len());

    println!("Scenario 3: Not enough arguments");
    listener.handle_welcome(&[json("12345")]);
    assert_eq!(0, listener.received_values.len());

    println!("Scenario 4: Too many arguments");
    listener.handle_welcome(&[json("12345"), json(r#"{"x": 1, "y": true}"#), json(r#""foobar""#)]);
    assert_eq!(0, listener.received_values.len());
}

#[test]
fn handle_abort_test() {
    let mut listener = listener();

    println!("Scenario 0: happy path");
    listener.handle_abort(&[json(r#"{"x": 1, "y": true}"#), json(r#""org.foo.bar.error""#)]);
    assert_eq!(1, listener.received_values.abort.len());
    assert_eq!(1, listener.received_values.len());
    let val = match listener.received_values.abort.poll_take_any(0) {
        Poll::Ready(val) => val,
        Poll::Pending => panic!("no message was added"),
    };
    if 2 != val.details.len() {
        panic!("details dict {:?} did not match", val.details);
    }
    if "org.foo.bar.error" != val.reason.to_raw() {
        panic!("reason URI {:?} did not match", val.reason);
    }

    println!("Scenario 1: 'Details' is not a dictionary");
    listener.handle_abort(&[json(r#""foobar""#), json(r#""org.foo.bar.error""#)]);
    assert_eq!(0, listener.received_values.len());

    println!("Scenario 2: 'Reason' is not a string");
    listener.handle_abort(&[json(r#"{"x": 1, "y": true}"#), json("12345")]);
    assert_eq!(0, listener.received_values.len());

    println!("Scenario 3: 'Reason' is not a valid URI");
    listener.handle_abort(&[json(r#"{"x": 1, "y": true}"#), json(r#""..""#)]);
    assert_eq!(0, listener.received_values.len());

    println!("Scenario 4: Not enough arguments");
    listener.handle_abort(&[json(r#"{"x": 1, "y": true}"#)]);
    assert_eq!(0, listener.received_values.len());

    println!("Scenario 5: Too many arguments");
    listener.handle_abort(&[
        json(r#"{"x": 1, "y": true}"#),
        json(r#""org.foo.bar.error""#),
        json("12345"),
    ]);
    assert_eq!(0, listener.received_values.len());
}

#[test]
fn handle_goodbye_test() {
    let mut listener = listener();

    println!("Scenario 0: happy path");
    listener.handle_goodbye(&[json(r#"{"x": 1, "y": true}"#), json(r#""org.foo.bar.closed""#)]);
    assert_eq!(1, listener.received_values.goodbye.len());
    assert_eq!(1, listener.received_values.len());
    let val = match listener.received_values.goodbye.poll_take_any(0) {
        Poll::Ready(val) => val,
        Poll::Pending => panic!("no message was added"),
    };
    if 2 != val.details.len() {
        panic!("details dict {:?} did not match", val.details);
    }
    if "org.foo.bar.closed" != val.reason.to_raw() {
        panic!("reason URI {:?} did not match", val.reason);
    }

    println!("Scenario 1: 'Details' is not a dictionary");
    listener.handle_goodbye(&[json(r#""foobar""#), json(r#""org.foo.bar.closed""#)]);
    assert_eq!(0, listener.received_values.len());

    println!("Scenario 2: 'Reason' is not a string");
    listener.handle_goodbye(&[json(r#"{"x": 1, "y": true}"#), json("12345")]);
    assert_eq!(0, listener.received_values.len());

    println!("Scenario 3: 'Reason' is not a valid URI");
    listener.handle_goodbye(&[json(r#"{"x": 1, "y": true}"#), json(r#""..""#)]);
    assert_eq!(0, listener.received_values.len());

    println!("Scenario 4: Not enough arguments");
    listener.handle_goodbye(&[json(r#"{"x": 1, "y": true}"#)]);
    assert_eq!(0, listener.received_values.len());

    println!("Scenario 5: Too many arguments");
    listener.handle_goodbye(&[
        json(r#"{"x": 1, "y": true}"#),
        json(r#""org.foo.bar.closed""#),
        json("12345"),
    ]);
    assert_eq!(0, listener.received_values.len());
}

#[test]
fn handle_subscribed_test() {
    let mut listener = listener();

    println!("Scenario 0: happy path");
    listener.handle_subscribed(&[json("12345"), json("23456")]);
    assert_eq!(1, listener.received_values.subscribed.len());
    assert_eq!(1, listener.received_values.len());
    let val = match listener.received_values.subscribed.poll_take_any(0) {
        Poll::Ready(val) => val,
        Poll::Pending => panic!("no message was added"),
    };
    if Id::<SessionScope>::from_raw_value(12345) != val.request {
        panic!("request ID {:?} did not match", val.request);
    }
    if Id::<RouterScope>::from_raw_value(23456) != val.subscription {
        panic!("subscription ID {:?} did not match",
            val.subscription);
    }

    println!("Scenario 1: 'Request' is not a number");
    listener.handle_subscribed(&[json(r#""foobar""#), json("23456")]);
    assert_eq!(0, listener.received_values.len());

    println!("Scenario 2: 'Subscription' is not a number");
    listener.handle_subscribed(&[json("12345"), json(r#""foobar""#)]);
    assert_eq!(0, listener.received_values.len());

    println!("Scenario 3: Not enough arguments");
    listener.handle_subscribed(&[json("12345")]);
    assert_eq!(0, listener.received_values.len());

    println!("Scenario 4: Too many arguments");
    listener.handle_subscribed(&[json("12345"), json("23456"), json("34567")]);
    assert_eq!(0, listener.received_values.len());
}

#[test]
fn handle_unsubscribed_test() {
    let mut listener = listener();

    println!("Scenario 0: happy path");
    listener.handle_unsubscribed(&[json("12345")]);
    assert_eq!(1, listener.received_values.unsubscribed.len());
    assert_eq!(1, listener.received_values.len());
    let val = match listener.received_values.unsubscribed.poll_take_any(0) {
        Poll::Ready(val) => val,
        Poll::Pending => panic!("no message was added"),
    };
    if Id::<SessionScope>::from_raw_value(12345) != val.request {
        panic!("request ID {:?} did not match", val.request);
    }

    println!("Scenario 1: request is not a number");
    listener.handle_unsubscribed(&[json(r#""foobar""#)]);
    assert_eq!(0, listener.received_values.len());

    println!("Scenario 2: Not enough arguments");
    listener.handle_unsubscribed(&[]);
    assert_eq!(0, listener.received_values.len());

    println!("Scenario 3: Too many arguments");
    listener.handle_unsubscribed(&[json("12345"), json("23456")]);
    assert_eq!(0, listener.received_values.len());
}

#[test]
fn handle_event_test() {
    let mut listener = listener();

    println!("Scenario 0: happy path (no arguments)");
    listener.handle_event(&[json("12345"), json("23456"), json(r#"{"x": "foo", "y": true}"#)]);
    assert_eq!(1, listener.received_values.event.len());
    assert_eq!(1, listener.received_values.len());
    let val = match listener.received_values.event.poll_take_any(0) {
        Poll::Ready(val) => val,
        Poll::Pending => panic!("no message was added"),
    };
    if Id::<RouterScope>::from_raw_value(12345) != val.subscription {
        panic!("subscription ID {:?} did not match",
            val.subscription);
    }
    if Id::<GlobalScope>::from_raw_value(23456) != val.publication {
        panic!("publication ID {:?} did not match",
            val.publication);
    }
    if 2 != val.details.len() {
        panic!("details map {:?} had wrong number of elements",
            val.details);
    }
    if val.arguments.is_some() {
        panic!("arguments were present: {:?}", val.arguments);
    }
    if val.arguments_kw.is_some() {
        panic!("arguments_kw were present: {:?}", val.arguments_kw);
    }

    println!("Scenario 1: happy path (positional arguments)");
    listener.handle_event(&[
        json("12345"),
        json("23456"),
        json(r#"{"x": "foo", "y": true}"#),
        json(r#"[1, "foobar"]"#),
    ]);
    assert_eq!(1, listener.received_values.event.len());
    assert_eq!(1, listener.received_values.len());
    let val = match listener.received_values.event.poll_take_any(0) {
        Poll::Ready(val) => val,
        Poll::Pending => panic!("no message was added"),
    };
    if Id::<RouterScope>::from_raw_value(12345) != val.subscription {
        panic!("subscription ID {:?} did not match",
            val.subscription);
    }
    if Id::<GlobalScope>::from_raw_value(23456) != val.publication {
        panic!("publication ID {:?} did not match",
            val.publication);
    }
    if 2 != val.details.len() {
        panic!("details map {:?} had wrong number of elements",
            val.details);
    }
    if let Some(arr) = val.arguments {
        if arr.len() != 2 {
            panic!("arguments had wrong length {:?}", arr);
        }
        if arr[0] != TransportableValue::Integer(1)
            || arr[1] != TransportableValue::String("foobar".into())
        {
            panic!("arguments had wrong values {:?}", arr);
        }
    } else {
        panic!("arguments did not exist");
    }
    if val.arguments_kw.is_some() {
        panic!("arguments_kw were present: {:?}", val.arguments_kw);
    }

    println!("Scenario 2: happy path (named arguments)");
    listener.handle_event(&[
        json("12345"),
        json("23456"),
        json(r#"{"x": "foo", "y": true}"#),
        json(r#"[1, "foobar"]"#),
        json(r#"{"a": 1, "b": 2}"#),
    ]);
    assert_eq!(1, listener.received_values.event.len());
    assert_eq!(1, listener.received_values.len());
    let val = match listener.received_values.event.poll_take_any(0) {
        Poll::Ready(val) => val,
        Poll::Pending => panic!("no message was added"),
    };
    if Id::<RouterScope>::from_raw_value(12345) != val.subscription {
        panic!("subscription ID {:?} did not match",
            val.subscription);
    }
    if Id::<GlobalScope>::from_raw_value(23456) != val.publication {
        panic!("publication ID {:?} did not match",
            val.publication);
    }
    if 2 != val.details.len() {
        panic!("details map {:?} had wrong number of elements",
            val.details);
    }
    if let Some(arr) = val.arguments {
        if arr.len() != 2 {
            panic!("arguments had wrong length {:?}", arr);
        }
        if arr[0] != TransportableValue::Integer(1)
            || arr[1] != TransportableValue::String("foobar".into())
        {
            panic!("arguments had wrong values {:?}", arr);
        }
    } else {
        panic!("arguments did not exist");
    }
    if let Some(dict) = val.arguments_kw {
        if dict.len() != 2 {
            panic!("arguments_kw had wrong size");
        }
        if dict.get("a") != Some(&TransportableValue::Integer(1)) {
            panic!("arguments_kw had wrong value for a");
        }
        if dict.get("b") != Some(&TransportableValue::Integer(2)) {
            panic!("arguments_kw had wrong value for b");
        }
    }

    println!("Scenario 3: subscription is not a number");
    listener.handle_event(&[json(r#""foobar""#), json("23456"), json("{}")]);
    assert_eq!(0, listener.received_values.len());

    println!("Scenario 4: publication is not a number");
    listener.handle_event(&[json("12345"), json(r#""foobar""#), json("{}")]);
    assert_eq!(0, listener.received_values.len());

    println!("Scenario 5: details is not a dict");
    listener.handle_event(&[json("12345"), json("23456"), json(r#""foobar""#)]);
    assert_eq!(0, listener.received_values.len());

    println!("Scenario 6: arguments is not a list");
    listener.handle_event(&[json("12345"), json("23456"), json("{}"), json(r#""not a list""#)]);
    assert_eq!(0, listener.received_values.len());

    println!("Scenario 7: arguments_kw is not a list");
    listener.handle_event(&[
        json("12345"),
        json("23456"),
        json("{}"),
        json("[]"),
        json(r#""not a dict""#),
    ]);
    assert_eq!(0, listener.received_values.len());

    println!("Scenario 8: too many arguments");
    listener.handle_event(&[
        json("12345"),
        json("23456"),
        json("{}"),
        json("[]"),
        json("{}"),
        json(r#""foobar""#),
    ]);
    assert_eq!(0, listener.received_values.len());

    println!("Scenario 9: not enough arguments");
    listener.handle_event(&[json("12345"), json("23456")]);
    assert_eq!(0, listener.received_values.len());
}

#[test]
fn handle_message_test() {
    let mut listener = listener();

    println!("Scenario 0: received 'Welcome'");
    listener.handle_message(r#"[2,12345,{"x":1,"y":true}]"#.to_string());
    assert_eq!(1, listener.received_values.welcome.len());
    assert_eq!(1, listener.received_values.len());
    let val = match listener.received_values.welcome.poll_take_any(0) {
        Poll::Ready(val) => val,
        Poll::Pending => panic!("no message was added"),
    };
    if Id::<GlobalScope>::from_raw_value(12345) != val.session {
        panic!("session id {:?} did not match", val.session);
    }
    if 2 != val.details.len() {
        panic!("details dict {:?} did not match", val.details);
    }

    println!("Scenario 1: received 'Abort'");
    listener.handle_message(r#"[3,{"x":1,"y":true},"org.foo.bar.error"]"#.to_string());
    assert_eq!(1, listener.received_values.abort.len());
    assert_eq!(1, listener.received_values.len());
    let val = match listener.received_values.abort.poll_take_any(0) {
        Poll::Ready(val) => val,
        Poll::Pending => panic!("no message was added"),
    };
    if 2 != val.details.len() {
        panic!("details dict {:?} did not match", val.details);
    }
    if "org.foo.bar.error" != val.reason.to_raw() {
        panic!("reason URI {:?} did not match", val.reason);
    }

    println!("Scenario 2: received 'Goodbye'");
    listener.handle_message(r#"[6,{"x":1,"y":true},"org.foo.bar.closed"]"#.to_string());
    assert_eq!(1, listener.received_values.goodbye.len());
    assert_eq!(1, listener.received_values.len());
    let val = match listener.received_values.goodbye.poll_take_any(0) {
        Poll::Ready(val) => val,
        Poll::Pending => panic!("no message was added"),
    };
    if 2 != val.details.len() {
        panic!("details dict {:?} did not match", val.details);
    }
    if "org.foo.bar.closed" != val.reason.to_raw() {
        panic!("reason URI {:?} did not match", val.reason);
    }

    println!("Scenario 3: received non-json text");
    listener.handle_message(r#"~!@#$%^&*()"#.to_string());
    assert_eq!(0, listener.received_values.len());

    println!("Scenario 4: received non-array JSON");
    listener.handle_message(r#"{"x":1,"y":true}"#.to_string());
    assert_eq!(0, listener.received_values.len());

    println!("Scenario 5: received non-number message code");
    listener.handle_message(r#"["foobar",12345,23456]"#.to_string());
    assert_eq!(0, listener.received_values.len());

    println!("Scenario 6: received unknown message code");
    listener.handle_message(r#"[123456,"L"]"#.to_string());
    assert_eq!(0, listener.received_values.len());
}

#[test]
fn ids_are_taken_as_they_come() {
    let mut listener = listener();
    listener.handle_message("[35,18446744073709551615]".to_string());
    match listener.received_values.unsubscribed.poll_take_any(0) {
        Poll::Ready(message) => assert_eq!(u64::max_value(), message.request.raw_value()),
        Poll::Pending => panic!("no message was added"),
    }
}

#[test]
fn waiting_task_is_notified() {
    let mut listener = listener();
    assert!(matches!(
        listener.received_values.goodbye.poll_take_any(3),
        Poll::Pending
    ));
    assert!(listener.handle_message("[3,{},\"a\"]".to_string()).is_empty());
    assert_eq!(vec![3], listener.handle_message("[6,{},\"a\"]".to_string()));
}

#[test]
fn listener_turns() {
    let mut listener = listener();
    let (step, _) = listener.poll_step(true, ListenerEvent::Failed("x".into()));
    assert_eq!(ListenerStep::Finished, step);
    let (step, _) = listener.poll_step(false, ListenerEvent::StreamGone);
    assert_eq!(ListenerStep::Finished, step);
    let (step, _) = listener.poll_step(false, ListenerEvent::Pending);
    assert_eq!(ListenerStep::Pending, step);
    let (step, _) = listener.poll_step(false, ListenerEvent::Ended);
    assert_eq!(ListenerStep::Finished, step);
    let (step, _) = listener.poll_step(false, ListenerEvent::Received(Message::Close));
    assert_eq!(ListenerStep::PollAgain, step);
    assert_eq!(0, listener.received_values.len());
    let (step, _) = listener.poll_step(
        false,
        ListenerEvent::Received(Message::Text("[35,1]".into())),
    );
    assert_eq!(ListenerStep::PollAgain, step);
    assert_eq!(1, listener.received_values.len());
    assert!(matches!(
        listener.received_values.transport_errors.poll_take_any(8),
        Poll::Pending
    ));
    let (step, woken) = listener.poll_step(false, ListenerEvent::Failed("x".into()));
    assert_eq!(ListenerStep::FailedDropStream, step);
    assert_eq!(vec![8], woken);
    match listener.received_values.transport_errors.poll_take_any(8) {
        Poll::Ready(error) => assert_eq!("x", error),
        Poll::Pending => panic!("the error was added"),
    }
}

fn hello() -> TxMessage {
    TxMessage::Hello {
        realm: Uri::raw("r".into()),
        details: Dict::new(),
    }
}

#[test]
fn transport_sends_until_closed() {
    let mut transport = WebsocketTransport::connected(ReceivedValues::default());
    assert_eq!(r#"[1,"r",{}]"#, transport.start_send(&hello()).unwrap());
    assert!(transport.poll_complete().is_ok());
    let closing = transport.close();
    assert!(closing.close_client);
    assert_eq!(None, closing.stop_listener);
    assert!(matches!(
        transport.start_send(&hello()),
        Err(SendError::TransportStreamClosed)
    ));
    assert!(matches!(
        transport.poll_complete(),
        Err(SendError::TransportStreamClosed)
    ));
    assert!(!transport.close().close_client);
}

#[test]
fn transport_listens_once() {
    let mut transport = WebsocketTransport::connected(ReceivedValues::default());
    assert!(transport.listen(4).is_some());
    assert!(transport.listen(5).is_none());
    assert_eq!(Some(4), transport.close().stop_listener);
    assert_eq!(None, transport.dropped());

    let mut transport = WebsocketTransport::connected(ReceivedValues::default());
    assert!(transport.listen(6).is_some());
    assert_eq!(Some(6), transport.dropped());
    assert_eq!(None, transport.dropped());
}

#[test]
fn what_is_parsed_is_heard() {
    let texts = vec![
        r#"[2,1,{"a":1}]"#,
        r#"[3,{},"a.b"]"#,
        r#"[6,{},"a.b"]"#,
        "[33,1,2]",
        "[35,1]",
        r#"[36,1,2,{},[3],{"b":4}]"#,
    ];
    for text in texts {
        let mut listener = listener();
        assert!(parse_message(Message::Text(text.into())).unwrap().is_some());
        listener.handle_json(&json(text));
        assert_eq!(1, listener.received_values.len());
    }
}
