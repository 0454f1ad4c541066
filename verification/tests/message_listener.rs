//! The message listener.

use wamp_proto::client::message_listener::{
    listen, process_message, process_stream_value, react, ListenerAction, ProcessMessageResult,
};
use wamp_proto::client::{ClientState, RouterCapabilities};
use wamp_proto::pollable::Poll;
use wamp_proto::proto::rx::{self, RxMessage};
use wamp_proto::transport::{TransportError, TransportableValue as TV};
use wamp_proto::{Dict, Id, MessageBuffer, Uri};

fn established() -> ClientState {
    ClientState::Established {
        session_id: Id::from_raw_value(77),
        router_capabilities: RouterCapabilities {
            broker: true,
            dealer: false,
        },
    }
}

fn without_session() -> Vec<ClientState> {
    vec![
        ClientState::Closed,
        ClientState::Establishing,
        ClientState::Failed,
        ClientState::Authenticating,
        ClientState::Closing,
        ClientState::TransportClosed,
    ]
}

fn welcome() -> RxMessage {
    let mut roles = Dict::new();
    roles.insert("broker".into(), TV::Dict(Dict::new()));
    let mut details = Dict::new();
    details.insert("roles".into(), TV::Dict(roles));
    RxMessage::Welcome(rx::Welcome {
        session: Id::from_raw_value(5),
        details,
    })
}

fn abort() -> RxMessage {
    RxMessage::Abort(rx::Abort {
        details: Dict::new(),
        reason: Uri::raw("a".into()),
    })
}

fn goodbye() -> RxMessage {
    RxMessage::Goodbye(rx::Goodbye {
        details: Dict::new(),
        reason: Uri::raw("g".into()),
    })
}

fn error(request_type: u64) -> RxMessage {
    RxMessage::Error(rx::Error {
        request_type,
        request: Id::from_raw_value(1),
        details: Dict::new(),
        error: Uri::raw("e".into()),
        arguments: None,
        arguments_kw: None,
    })
}

fn event(subscription: u64) -> RxMessage {
    RxMessage::Event(rx::Event {
        subscription: Id::from_raw_value(subscription),
        publication: Id::from_raw_value(2),
        details: Dict::new(),
        arguments: None,
        arguments_kw: None,
    })
}

fn subscribed() -> RxMessage {
    RxMessage::Subscribed(rx::Subscribed {
        request: Id::from_raw_value(1),
        subscription: Id::from_raw_value(2),
    })
}

fn replies() -> Vec<RxMessage> {
    vec![
        subscribed(),
        RxMessage::Unsubscribed(rx::Unsubscribed {
            request: Id::from_raw_value(1),
        }),
        RxMessage::Published(rx::Published {
            request: Id::from_raw_value(1),
            publication: Id::from_raw_value(2),
        }),
        RxMessage::Registered(rx::Registered {
            request: Id::from_raw_value(1),
            registration: Id::from_raw_value(2),
        }),
        RxMessage::Unregistered(rx::Unregistered {
            request: Id::from_raw_value(1),
        }),
        RxMessage::Invocation(rx::Invocation {
            request: Id::from_raw_value(1),
            registration: Id::from_raw_value(2),
            details: Dict::new(),
            arguments: None,
            arguments_kw: None,
        }),
        RxMessage::Result(rx::Result {
            request: Id::from_raw_value(1),
            details: Dict::new(),
            arguments: None,
            arguments_kw: None,
        }),
    ]
}

fn result(message: RxMessage, state: ClientState) -> ProcessMessageResult {
    process_message(message, &mut MessageBuffer::default(), state).0
}

#[test]
fn welcome_establishes_a_session() {
    for state in without_session() {
        assert_eq!(
            ProcessMessageResult::Welcome {
                session_id: Id::from_raw_value(5),
                router_capabilities: RouterCapabilities {
                    broker: true,
                    dealer: false,
                },
            },
            result(welcome(), state)
        );
    }
    assert_eq!(
        ProcessMessageResult::ProtocolError,
        result(welcome(), established())
    );
}

#[test]
fn abort_and_goodbye_end_the_session() {
    assert_eq!(ProcessMessageResult::Abort, result(abort(), established()));
    assert_eq!(
        ProcessMessageResult::Goodbye,
        result(goodbye(), established())
    );
    for state in without_session() {
        assert_eq!(ProcessMessageResult::Abort, result(abort(), state));
        assert_eq!(ProcessMessageResult::ProtocolError, result(goodbye(), state));
    }
}

#[test]
fn replies_are_buffered_in_a_session() {
    let mut received = MessageBuffer::default();
    for reply in replies() {
        let (result, woken) = process_message(reply, &mut received, established());
        assert_eq!(ProcessMessageResult::Continue, result);
        assert!(woken.is_empty());
    }
    assert_eq!(1, received.subscribed.len());
    assert_eq!(1, received.unsubscribed.len());
    assert_eq!(1, received.published.len());
    assert_eq!(1, received.registered.len());
    assert_eq!(1, received.unregistered.len());
    assert_eq!(1, received.invocation.len());
    assert_eq!(1, received.result.len());
}

#[test]
fn replies_without_a_session_violate_the_protocol() {
    for state in without_session() {
        for reply in replies() {
            assert_eq!(ProcessMessageResult::ProtocolError, result(reply, state));
        }
        assert_eq!(ProcessMessageResult::ProtocolError, result(error(32), state));
        assert_eq!(ProcessMessageResult::ProtocolError, result(event(2), state));
    }
}

#[test]
fn errors_are_buffered_by_request_type() {
    let mut received = MessageBuffer::default();
    for code in vec![32, 34, 16, 64, 66, 48] {
        let (result, _) = process_message(error(code), &mut received, established());
        assert_eq!(ProcessMessageResult::Continue, result);
    }
    assert_eq!(1, received.errors.subscribe.len());
    assert_eq!(1, received.errors.unsubscribe.len());
    assert_eq!(1, received.errors.publish.len());
    assert_eq!(1, received.errors.register.len());
    assert_eq!(1, received.errors.unregister.len());
    assert_eq!(1, received.errors.call.len());
    assert_eq!(
        ProcessMessageResult::ProtocolError,
        result(error(33), established())
    );
}

#[test]
fn events_need_a_subscription() {
    let mut received = MessageBuffer::default();
    assert_eq!(
        ProcessMessageResult::ProtocolError,
        process_message(event(2), &mut received, established()).0
    );
    received.add_event_queue(2);
    assert!(matches!(received.poll_event(2, 9), Some(Poll::Pending)));
    let (result, woken) = process_message(event(2), &mut received, established());
    assert_eq!(ProcessMessageResult::Continue, result);
    assert_eq!(vec![9], woken);
    assert_eq!(
        ProcessMessageResult::ProtocolError,
        process_message(event(3), &mut received, established()).0
    );
    assert!(matches!(received.poll_event(2, 9), Some(Poll::Ready(_))));
    received.remove_event_queue(2);
    assert!(received.poll_event(2, 9).is_none());
    assert_eq!(
        ProcessMessageResult::ProtocolError,
        process_message(event(2), &mut received, established()).0
    );
}

#[test]
fn only_goodbye_counts_while_shutting_down() {
    let mut received = MessageBuffer::default();
    for message in vec![welcome(), abort(), error(32), error(33), event(2), subscribed()] {
        let (result, woken) = process_message(message, &mut received, ClientState::ShuttingDown);
        assert_eq!(ProcessMessageResult::Continue, result);
        assert!(woken.is_empty());
    }
    assert_eq!(0, received.subscribed.len());
    assert_eq!(0, received.errors.subscribe.len());
    assert!(matches!(received.goodbye.poll_take_any(4), Poll::Pending));
    let (result, woken) = process_message(goodbye(), &mut received, ClientState::ShuttingDown);
    assert_eq!(ProcessMessageResult::Continue, result);
    assert_eq!(vec![4], woken);
    assert_eq!(1, received.goodbye.len());
}

#[test]
fn transport_errors_end_the_connection() {
    let mut received = MessageBuffer::default();
    for state in vec![established(), ClientState::Establishing, ClientState::ShuttingDown] {
        let network = Err(TransportError::NetworkError("n".into()));
        assert_eq!(
            ProcessMessageResult::Abort,
            process_stream_value(network, &mut received, state).0
        );
        let parse = Err(TransportError::ParseError("p".into()));
        assert_eq!(
            ProcessMessageResult::ProtocolError,
            process_stream_value(parse, &mut received, state).0
        );
    }
}

fn described(action: &ListenerAction) -> String {
    match action {
        ListenerAction::SetState(state) => state.get_name().to_string(),
        ListenerAction::Send(message) => message.to_json().write().unwrap(),
        ListenerAction::StopTasks => "stop".to_string(),
        ListenerAction::CloseSender => "close".to_string(),
    }
}

fn reaction(result: ProcessMessageResult, state: ClientState) -> (Vec<String>, bool) {
    let reaction = react(result, state);
    (
        reaction.actions.iter().map(described).collect(),
        reaction.finished,
    )
}

#[test]
fn reactions() {
    assert_eq!(
        (vec![], false),
        reaction(ProcessMessageResult::Continue, established())
    );
    assert_eq!(
        (
            vec![
                "CLOSED".to_string(),
                "stop".to_string(),
                "close".to_string(),
                "TRANSPORT_CLOSED".to_string()
            ],
            true
        ),
        reaction(ProcessMessageResult::Abort, established())
    );
    assert_eq!(
        (
            vec![
                "FAILED".to_string(),
                r#"[3,{},"wamp.error.protocol_violation"]"#.to_string(),
                "stop".to_string(),
                "close".to_string(),
                "TRANSPORT_CLOSED".to_string()
            ],
            true
        ),
        reaction(ProcessMessageResult::ProtocolError, established())
    );
    assert_eq!(
        (
            vec![
                "CLOSING".to_string(),
                r#"[6,{},"wamp.error.goodbye_and_out"]"#.to_string(),
                "stop".to_string(),
                "close".to_string(),
                "TRANSPORT_CLOSED".to_string()
            ],
            true
        ),
        reaction(ProcessMessageResult::Goodbye, established())
    );
    assert_eq!(
        (vec![], false),
        reaction(ProcessMessageResult::Goodbye, ClientState::Closed)
    );
}

#[test]
fn listener_turn() {
    let mut received = MessageBuffer::default();
    let (reaction, _) = listen(Some(Ok(welcome())), &mut received, ClientState::Establishing);
    assert!(!reaction.finished);
    assert_eq!("ESTABLISHED", described(&reaction.actions[0]));
    assert_eq!(1, reaction.actions.len());
}

#[test]
fn end_of_the_stream_closes_the_client() {
    let states = vec![
        established(),
        ClientState::Establishing,
        ClientState::ShuttingDown,
        ClientState::Closed,
    ];
    for state in states {
        let mut received = MessageBuffer::default();
        let (reaction, woken) = listen(None, &mut received, state);
        assert!(reaction.finished);
        assert!(woken.is_empty());
        let actions: Vec<String> = reaction.actions.iter().map(described).collect();
        assert_eq!(vec!["CLOSED", "stop", "close", "TRANSPORT_CLOSED"], actions);
    }
    let mut received = MessageBuffer::default();
    let (reaction, woken) = listen(None, &mut received, ClientState::TransportClosed);
    assert!(reaction.finished);
    assert!(woken.is_empty());
    assert!(reaction.actions.is_empty());
}

#[test]
fn replies_are_announced_to_those_who_wait() {
    let mut received = MessageBuffer::default();
    assert!(matches!(received.published.poll_take_any(6), Poll::Pending));
    assert!(matches!(received.published.poll_take_any(7), Poll::Pending));
    assert!(matches!(
        received.errors.publish.poll_take_any(8),
        Poll::Pending
    ));
    let published = RxMessage::Published(rx::Published {
        request: Id::from_raw_value(1),
        publication: Id::from_raw_value(10),
    });
    let (result, woken) = process_message(published, &mut received, established());
    assert_eq!(ProcessMessageResult::Continue, result);
    assert_eq!(vec![6, 7], woken);
    let error = RxMessage::Error(rx::Error {
        request_type: 16,
        request: Id::from_raw_value(1),
        details: Dict::new(),
        error: Uri::raw("no.way".into()),
        arguments: None,
        arguments_kw: None,
    });
    let (result, woken) = process_message(error, &mut received, established());
    assert_eq!(ProcessMessageResult::Continue, result);
    assert_eq!(vec![8], woken);
    assert_eq!(1, received.published.len());
    assert_eq!(1, received.errors.publish.len());
}
