//! The client and its operations.

use wamp_proto::client::builder::{ClientBuilder, FirstEvent, InitializeError};
use wamp_proto::client::message_listener::{listen, ListenerAction};
use wamp_proto::client::ops::initialize::{hello, initialize, poll_established};
use wamp_proto::client::ops::publish::PublishWithAckOp;
use wamp_proto::client::ops::subscribe::{broadcast_of, SubscriptionStreamImpl};
use wamp_proto::client::ops::{time_limit, Accepted, SendOp, SendStage, SendStep, Watch};
use wamp_proto::client::task_tracker::ClientTaskTracker;
use wamp_proto::client::{
    require_broker, watch_for_client_state_change, ClientState, Duration, RouterCapabilities,
};
use wamp_proto::pollable::{Poll, PollableValue};
use wamp_proto::proto::rx::{self, RxMessage};
use wamp_proto::transport::TransportableValue as TV;
use wamp_proto::{
    Broadcast, Client, ClientConfig, Dict, Id, SessionIdSource, Subscription, SubscriptionStream,
    Uri, WampError,
};

fn uri(text: &str) -> Uri {
    Uri::raw(text.into())
}

fn established(broker: bool) -> ClientState {
    ClientState::Established {
        session_id: Id::from_raw_value(1),
        router_capabilities: RouterCapabilities {
            broker,
            dealer: false,
        },
    }
}

fn client(state: ClientState) -> Client {
    let mut client = initialize(Ok(()), 100, true).unwrap();
    client.state.write(state);
    client
}

fn going(state: ClientState) -> Watch {
    Watch {
        state,
        timed_out: false,
    }
}

fn late(state: ClientState) -> Watch {
    Watch {
        state,
        timed_out: true,
    }
}

fn broadcast(value: u64) -> Broadcast {
    let mut arguments_kw = Dict::new();
    arguments_kw.insert("k".into(), TV::Integer(value));
    Broadcast {
        arguments: vec![TV::Integer(value)],
        arguments_kw,
    }
}

fn described(step: SendStep) -> String {
    match step {
        SendStep::WaitReady => "ready".to_string(),
        SendStep::Send(message) => message.to_json().write().unwrap(),
        SendStep::Flush => "flush".to_string(),
        SendStep::Sent => "sent".to_string(),
        SendStep::Failed(error) => error.text(),
    }
}

fn all_steps(send: &mut SendOp, state: ClientState) -> Vec<String> {
    (0..3)
        .map(|_| described(send.advance(going(state), Ok(()))))
        .collect()
}

fn failure<T>(result: Result<T, WampError>) -> String {
    match result {
        Ok(_) => "ok".to_string(),
        Err(error) => error.text(),
    }
}

fn polled<T>(polled: Poll<Result<T, WampError>>) -> String {
    match polled {
        Poll::Ready(result) => failure(result),
        Poll::Pending => "pending".to_string(),
    }
}

#[test]
fn state_names() {
    let states = vec![
        (ClientState::Closed, "CLOSED"),
        (ClientState::Establishing, "ESTABLISHING"),
        (ClientState::Failed, "FAILED"),
        (ClientState::Authenticating, "AUTHENTICATING"),
        (established(true), "ESTABLISHED"),
        (ClientState::ShuttingDown, "SHUTTING_DOWN"),
        (ClientState::Closing, "CLOSING"),
        (ClientState::TransportClosed, "TRANSPORT_CLOSED"),
    ];
    for (i, (state, name)) in states.iter().enumerate() {
        assert_eq!(*name, state.get_name());
        assert_eq!(i == 4, state.is_established());
        for (j, (other, _)) in states.iter().enumerate() {
            assert_eq!(i == j, state == other);
        }
    }
    assert!(established(true) != established(false));
}

#[test]
fn capabilities_of_the_router() {
    let none = RouterCapabilities {
        broker: false,
        dealer: false,
    };
    let mut details = Dict::new();
    assert_eq!(none, RouterCapabilities::from_details(&details));
    details.insert("roles".into(), TV::List(vec![]));
    assert_eq!(none, RouterCapabilities::from_details(&details));
    let mut roles = Dict::new();
    roles.insert("dealer".into(), TV::Integer(0));
    details.insert("roles".into(), TV::Dict(roles));
    assert_eq!(
        RouterCapabilities {
            broker: false,
            dealer: true,
        },
        RouterCapabilities::from_details(&details)
    );
}

#[test]
fn default_configuration() {
    let config = ClientConfig::new("ws://127.0.0.1:9001", uri("org.test"));
    assert_eq!("ws://127.0.0.1:9001", config.url);
    assert_eq!(uri("org.test"), config.realm);
    assert_eq!(Duration { secs: 10, nanos: 0 }, config.timeout);
    assert_eq!(Duration { secs: 1, nanos: 0 }, config.shutdown_timeout);
    assert!(config.panic_on_drop_while_open);
    assert!(config.user_agent.is_none());
}

#[test]
fn state_changes_are_watched() {
    let mut state = PollableValue::new(established(true));
    let is_ok = |state: ClientState| state.is_established();
    assert!(matches!(
        watch_for_client_state_change(&mut state, 6, is_ok),
        Poll::Pending
    ));
    assert_eq!(vec![6], state.write(ClientState::Failed));
    match watch_for_client_state_change(&mut state, 6, is_ok) {
        Poll::Ready(error) => {
            assert_eq!("the client transitioned to invalid state FAILED", error.text())
        }
        Poll::Pending => panic!("the state has changed"),
    }
}

#[test]
fn broker_is_required() {
    assert!(require_broker(established(true)).is_ok());
    assert_eq!(
        "router does not support required role broker",
        failure(require_broker(established(false)))
    );
    assert_eq!(
        "the client is in an invalid state",
        failure(require_broker(ClientState::Closing))
    );
    let mut ids = SessionIdSource::new();
    let stream = SubscriptionStreamImpl {
        subscription_id: Id::from_raw_value(1),
    };
    for state in vec![established(false), ClientState::ShuttingDown] {
        let mut client = client(state);
        assert!(client.publish(uri("t"), vec![]).is_err());
        assert!(client
            .publish_with_ack(uri("t"), broadcast(1), &mut ids)
            .is_err());
        assert!(client.subscribe(uri("t"), &mut ids).is_err());
        assert!(client.unsubscribe(&stream, &mut ids).is_err());
    }
    assert_eq!(
        1,
        client(established(true))
            .subscribe(uri("t"), &mut ids)
            .unwrap()
            .request
            .raw_value()
    );
}

#[test]
fn hello_tells_roles_and_agent() {
    assert_eq!(
        concat_hello(""),
        hello(uri("org.test"), None).to_json().write().unwrap()
    );
    assert_eq!(
        concat_hello(r#""agent":"me","#),
        hello(uri("org.test"), Some("me".into()))
            .to_json()
            .write()
            .unwrap()
    );
}

fn concat_hello(agent: &str) -> String {
    format!(
        r#"[1,"org.test",{{{}"roles":{{"callee":{{}},"caller":{{}},"publisher":{{}},"subscriber":{{}}}}}}]"#,
        agent
    )
}

#[test]
fn client_waits_to_be_established() {
    assert_eq!(
        "transport failed to send HELLO message: gone",
        failure(initialize(Err("gone".into()), 1, false))
    );
    let mut client = initialize(Ok(()), 1, false).unwrap();
    assert!(matches!(
        poll_established(&mut client.state, 2),
        Poll::Pending
    ));
    assert_eq!(vec![2], client.state.write(established(true)));
    assert!(matches!(
        poll_established(&mut client.state, 2),
        Poll::Ready(())
    ));
}

#[test]
fn broadcasts_are_published_in_order() {
    let mut ids = SessionIdSource::new();
    let mut client = client(established(true));
    let (mut op, first) = client
        .publish(uri("t"), vec![broadcast(5), broadcast(6)])
        .unwrap();
    let mut steps = vec![described(first)];
    for _ in 0..5 {
        steps.push(described(op.advance(
            going(established(true)),
            Ok(()),
            &mut ids,
        )));
    }
    assert_eq!(
        vec![
            "ready".to_string(),
            r#"[16,1,{},"t",[5],{"k":5}]"#.to_string(),
            "ready".to_string(),
            r#"[16,2,{},"t",[6],{"k":6}]"#.to_string(),
            "flush".to_string(),
            "sent".to_string(),
        ],
        steps
    );
}

#[test]
fn publishing_nothing_flushes() {
    let mut client = client(established(true));
    let (_, first) = client.publish(uri("t"), vec![]).unwrap();
    assert_eq!("flush", described(first));
}

#[test]
fn publishing_fails_with_the_sink() {
    let mut ids = SessionIdSource::new();
    let watch = going(established(true));
    let mut client = client(established(true));
    let (mut op, _) = client.publish(uri("t"), vec![broadcast(5)]).unwrap();
    assert_eq!(
        "transport sink failed to become ready to send PUBLISH: x",
        described(op.advance(watch, Err("x".into()), &mut ids))
    );
    op.advance(watch, Ok(()), &mut ids);
    assert_eq!(
        "transport failed to send PUBLISH message: y",
        described(op.advance(watch, Err("y".into()), &mut ids))
    );
    op.advance(watch, Ok(()), &mut ids);
    assert_eq!(
        "transport sink failed to flush after sending PUBLISH: z",
        described(op.advance(watch, Err("z".into()), &mut ids))
    );
}

#[test]
fn operations_are_interrupted() {
    let mut ids = SessionIdSource::new();
    let mut client = client(established(true));
    let (mut op, _) = client.publish(uri("t"), vec![broadcast(5)]).unwrap();
    assert_eq!(
        "the client transitioned to invalid state CLOSED",
        described(op.advance(going(ClientState::Closed), Ok(()), &mut ids))
    );
    assert_eq!(
        "timed out",
        described(op.advance(
            Watch {
                state: established(true),
                timed_out: true,
            },
            Ok(()),
            &mut ids,
        ))
    );
    let mut op = client.subscribe(uri("t"), &mut ids).unwrap();
    all_steps(&mut op.send, established(true));
    assert_eq!(
        "timed out",
        polled(op.poll_reply(
            late(established(true)),
            &mut client.received,
            &mut client.task_tracker,
            1,
            2,
        ))
    );
    assert_eq!(
        "the client transitioned to invalid state CLOSED",
        polled(op.poll_reply(
            late(ClientState::Closed),
            &mut client.received,
            &mut client.task_tracker,
            1,
            2,
        ))
    );
}

fn publish_error(request: u64) -> rx::Error {
    rx::Error {
        request_type: 16,
        request: Id::from_raw_value(request),
        details: Dict::new(),
        error: uri("no.way"),
        arguments: None,
        arguments_kw: None,
    }
}

fn begun_ack(client: &mut Client) -> PublishWithAckOp {
    let mut ids = SessionIdSource::new();
    let mut op = client
        .publish_with_ack(uri("t"), broadcast(5), &mut ids)
        .unwrap();
    assert_eq!(
        vec![
            r#"[16,1,{"acknowledge":true},"t",[5],{"k":5}]"#.to_string(),
            "flush".to_string(),
            "sent".to_string(),
        ],
        all_steps(&mut op.send, established(true))
    );
    assert_eq!(SendStage::Sent, op.send.stage());
    op
}

#[test]
fn publication_is_acknowledged() {
    let watch = going(established(true));
    let mut client = client(established(true));
    let op = begun_ack(&mut client);
    assert_eq!(
        "pending",
        polled(op.poll_reply(watch, &mut client.received, 7, false))
    );
    let woken = client.received.published.insert(rx::Published {
        request: Id::from_raw_value(2),
        publication: Id::from_raw_value(20),
    });
    assert_eq!(vec![7], woken);
    assert_eq!(
        "pending",
        polled(op.poll_reply(watch, &mut client.received, 7, true))
    );
    client.received.published.insert(rx::Published {
        request: Id::from_raw_value(1),
        publication: Id::from_raw_value(10),
    });
    match op.poll_reply(watch, &mut client.received, 7, true) {
        Poll::Ready(Ok(publication)) => assert_eq!(10, publication.raw_value()),
        _ => panic!("the request was answered"),
    }
    assert_eq!(1, client.received.published.len());
}

#[test]
fn publication_is_refused() {
    let watch = going(established(true));
    let mut client = client(established(true));
    let op = begun_ack(&mut client);
    client.received.errors.publish.insert(publish_error(1));
    client.received.published.insert(rx::Published {
        request: Id::from_raw_value(1),
        publication: Id::from_raw_value(10),
    });
    assert_eq!(
        "router responded with error \"no.way\"",
        polled(op.poll_reply(watch, &mut client.received, 7, true))
    );
    client.received.errors.publish.insert(publish_error(1));
    assert_eq!(
        "ok",
        polled(op.poll_reply(watch, &mut client.received, 7, false))
    );
    assert_eq!(
        "router responded with error \"no.way\"",
        polled(op.poll_reply(watch, &mut client.received, 7, false))
    );
}

fn event(subscription: u64, arguments: Option<Vec<TV>>) -> rx::Event {
    rx::Event {
        subscription: Id::from_raw_value(subscription),
        publication: Id::from_raw_value(1),
        details: Dict::new(),
        arguments,
        arguments_kw: None,
    }
}

#[test]
fn subscription_from_beginning_to_end() {
    let watch = going(established(true));
    let mut ids = SessionIdSource::new();
    let mut client = client(established(true));
    let mut op = client.subscribe(uri("org.test.channel"), &mut ids).unwrap();
    assert_eq!(
        vec![
            r#"[32,1,{},"org.test.channel"]"#.to_string(),
            "flush".to_string(),
            "sent".to_string(),
        ],
        all_steps(&mut op.send, established(true))
    );
    assert!(matches!(
        op.poll_reply(watch, &mut client.received, &mut client.task_tracker, 3, 50),
        Poll::Pending
    ));
    client.received.subscribed.insert(rx::Subscribed {
        request: Id::from_raw_value(1),
        subscription: Id::from_raw_value(9),
    });
    let stream = match op.poll_reply(
        watch,
        &mut client.received,
        &mut client.task_tracker,
        3,
        50,
    ) {
        Poll::Ready(Ok(subscribed)) => {
            assert_eq!(None, subscribed.displaced);
            subscribed.stream
        }
        _ => panic!("the request was answered"),
    };
    assert_eq!(9, stream.get_subscription_id().raw_value());
    assert!(matches!(
        stream.poll_next(false, &mut client.received, 4),
        Poll::Pending
    ));
    assert_eq!(
        Some(vec![4]),
        client
            .received
            .insert_event(event(9, Some(vec![TV::Integer(42)])))
    );
    client.received.insert_event(event(9, None));
    match stream.poll_next(false, &mut client.received, 4) {
        Poll::Ready(Some(broadcast)) => {
            assert_eq!(vec![TV::Integer(42)], broadcast.arguments);
            assert!(broadcast.arguments_kw.is_empty());
        }
        _ => panic!("an event was there"),
    }
    assert!(matches!(
        stream.poll_next(true, &mut client.received, 4),
        Poll::Ready(None)
    ));

    let mut op = client.unsubscribe(&stream, &mut ids).unwrap();
    assert_eq!(
        "[34,2,9]",
        all_steps(&mut op.send, established(true))[0]
    );
    assert!(matches!(
        op.poll_reply(watch, &mut client.received, &mut client.task_tracker, 3, true),
        Poll::Pending
    ));
    client.received.unsubscribed.insert(rx::Unsubscribed {
        request: Id::from_raw_value(2),
    });
    match op.poll_reply(
        watch,
        &mut client.received,
        &mut client.task_tracker,
        3,
        false,
    ) {
        Poll::Ready(Ok(signal)) => assert_eq!(Some(50), signal),
        _ => panic!("the request was answered"),
    }
    assert!(matches!(
        stream.poll_next(false, &mut client.received, 4),
        Poll::Pending
    ));
    assert!(matches!(
        stream.poll_next(true, &mut client.received, 4),
        Poll::Ready(None)
    ));
}

#[test]
fn refused_unsubscription_keeps_the_subscription() {
    let watch = going(established(true));
    let mut ids = SessionIdSource::new();
    let mut client = client(established(true));
    let stream = SubscriptionStreamImpl {
        subscription_id: Id::from_raw_value(9),
    };
    client.received.add_event_queue(9);
    client
        .task_tracker
        .track_subscription(Id::from_raw_value(9), 50);
    let mut op = client.unsubscribe(&stream, &mut ids).unwrap();
    all_steps(&mut op.send, established(true));
    client.received.errors.unsubscribe.insert(rx::Error {
        request_type: 34,
        ..publish_error(1)
    });
    match op.poll_reply(
        watch,
        &mut client.received,
        &mut client.task_tracker,
        3,
        true,
    ) {
        Poll::Ready(Err(WampError::ErrorReceived {
            error,
            request_type,
            request_id,
        })) => {
            assert_eq!(uri("no.way"), error);
            assert_eq!(34, request_type);
            assert_eq!(1, request_id.raw_value());
        }
        _ => panic!("the request was refused"),
    }
    assert!(client.received.insert_event(event(9, None)).is_some());
    assert_eq!(
        vec![50],
        client.task_tracker.stop_all_except_message_listener()
    );
}

#[test]
fn broadcast_without_values_is_empty() {
    let broadcast = broadcast_of(event(1, None));
    assert!(broadcast.arguments.is_empty());
    assert!(broadcast.arguments_kw.is_empty());
}

#[test]
fn client_closes() {
    let mut client = client(established(true));
    assert!(matches!(client.wait_for_close(8), Poll::Pending));
    client
        .task_tracker
        .track_subscription(Id::from_raw_value(9), 50);
    let (mut op, shutdown) = client.close(uri("wamp.error.goodbye"));
    assert_eq!(vec![8], shutdown.woken);
    assert_eq!(vec![50], shutdown.stopped);
    assert!(client.state.read(None) == ClientState::ShuttingDown);
    assert_eq!(
        vec![
            r#"[6,{},"wamp.error.goodbye"]"#.to_string(),
            "flush".to_string(),
            "sent".to_string(),
        ],
        all_steps(&mut op.send, ClientState::ShuttingDown)
    );
    let watch = going(ClientState::ShuttingDown);
    assert_eq!(
        "pending",
        polled(op.poll_goodbye(watch, &mut client.received, 1))
    );
    client.received.goodbye.insert(rx::Goodbye {
        details: Dict::new(),
        reason: uri("anything"),
    });
    assert_eq!(
        "ok",
        polled(op.poll_goodbye(watch, &mut client.received, 1))
    );
    assert!(client.acknowledged().is_empty());
    assert_eq!(Err("stuck".to_string()), client.closed(Err("stuck".into())));
    assert!(!client.is_transport_closed());
    assert!(matches!(client.wait_for_close(8), Poll::Pending));
    assert_eq!(Ok(vec![8]), client.closed(Ok(())));
    assert!(client.is_transport_closed());
    assert!(matches!(client.wait_for_close(8), Poll::Ready(())));
    let dropped = client.dropped();
    assert!(!dropped.still_open);
    assert!(!dropped.panics);
    assert_eq!(Some(100), dropped.msg_listener);
}

#[test]
fn closing_is_interrupted() {
    let mut client = client(established(true));
    let (mut op, _) = client.close(uri("x"));
    assert_eq!(
        "transport sink failed to become ready to send GOODBYE: e",
        described(op.send.advance(going(ClientState::Closed), Err("e".into())))
    );
    all_steps(&mut op.send, ClientState::ShuttingDown);
    assert_eq!(
        "the client transitioned to invalid state FAILED",
        polled(op.poll_goodbye(going(ClientState::Failed), &mut client.received, 1))
    );
    assert_eq!(
        "timed out",
        polled(op.poll_goodbye(late(ClientState::ShuttingDown), &mut client.received, 1))
    );
    let (mut op, _) = client.close(uri("x"));
    op.send.advance(going(ClientState::ShuttingDown), Ok(()));
    op.send.advance(going(ClientState::ShuttingDown), Ok(()));
    assert_eq!(
        "transport sink failed to flush after sending GOODBYE (flush): e",
        described(
            op.send
                .advance(going(ClientState::ShuttingDown), Err("e".into()))
        )
    );
}

fn goodbye() -> rx::Goodbye {
    rx::Goodbye {
        details: Dict::new(),
        reason: uri("wamp.error.goodbye_and_out"),
    }
}

/// What the listener does about an item of the stream, carried out on the client.
fn hear(client: &mut Client, item: Option<RxMessage>) -> bool {
    let state = client.state.read(None);
    let (reaction, _) = listen(item.map(Ok), &mut client.received, state);
    for action in reaction.actions {
        match action {
            ListenerAction::SetState(state) => {
                client.state.write(state);
            }
            ListenerAction::StopTasks => {
                client.task_tracker.stop_all_except_message_listener();
            }
            _ => {}
        }
    }
    reaction.finished
}

#[test]
fn acknowledged_shutdown_succeeds_after_the_end_of_the_stream() {
    let mut client = client(established(true));
    let (mut op, _) = client.close(uri("x"));
    assert!(!hear(&mut client, Some(RxMessage::Goodbye(goodbye()))));
    assert!(hear(&mut client, None));
    assert!(client.is_transport_closed());
    let watch = late(client.state.read(None));
    assert_eq!(
        vec![
            r#"[6,{},"x"]"#.to_string(),
            "flush".to_string(),
            "sent".to_string(),
        ],
        (0..3)
            .map(|_| described(op.advance(watch, Ok(()), &client.received)))
            .collect::<Vec<_>>()
    );
    assert_eq!(
        "ok",
        polled(op.poll_goodbye(watch, &mut client.received, 1))
    );
    assert_eq!(0, client.received.goodbye.len());
    assert!(client.acknowledged().is_empty());
    assert!(client.closed(Err("closed already".into())).is_ok());
    assert!(client.is_transport_closed());
    assert!(!client.dropped().panics);
    assert_eq!(
        "the client transitioned to invalid state TRANSPORT_CLOSED",
        polled(op.poll_goodbye(watch, &mut client.received, 1))
    );
}

#[test]
fn unacknowledged_shutdown_fails_at_the_end_of_the_stream() {
    let mut client = client(established(true));
    let (mut op, _) = client.close(uri("x"));
    op.advance(going(ClientState::ShuttingDown), Ok(()), &client.received);
    assert!(hear(&mut client, None));
    let watch = going(client.state.read(None));
    assert_eq!(
        "the client transitioned to invalid state TRANSPORT_CLOSED",
        described(op.advance(watch, Ok(()), &client.received))
    );
}

#[test]
fn replies_win_over_the_clock() {
    let watch = late(established(true));
    let mut ids = SessionIdSource::new();
    let mut client = client(established(true));
    let ack = begun_ack(&mut client);
    assert_eq!(
        "timed out",
        polled(ack.poll_reply(watch, &mut client.received, 7, false))
    );
    client.received.published.insert(rx::Published {
        request: Id::from_raw_value(1),
        publication: Id::from_raw_value(10),
    });
    assert_eq!(
        "ok",
        polled(ack.poll_reply(watch, &mut client.received, 7, false))
    );

    let mut op = client.subscribe(uri("t"), &mut ids).unwrap();
    all_steps(&mut op.send, established(true));
    client.received.subscribed.insert(rx::Subscribed {
        request: Id::from_raw_value(1),
        subscription: Id::from_raw_value(9),
    });
    let stream = match op.poll_reply(
        watch,
        &mut client.received,
        &mut client.task_tracker,
        3,
        50,
    ) {
        Poll::Ready(Ok(subscribed)) => subscribed.stream,
        _ => panic!("the request was answered"),
    };

    let mut op = client.unsubscribe(&stream, &mut ids).unwrap();
    all_steps(&mut op.send, established(true));
    assert_eq!(
        "timed out",
        polled(op.poll_reply(watch, &mut client.received, &mut client.task_tracker, 3, true))
    );
    client.received.unsubscribed.insert(rx::Unsubscribed {
        request: Id::from_raw_value(2),
    });
    assert_eq!(
        "ok",
        polled(op.poll_reply(watch, &mut client.received, &mut client.task_tracker, 3, true))
    );
}

#[test]
fn event_right_behind_subscribed_is_received() {
    let mut ids = SessionIdSource::new();
    let mut client = client(established(true));
    let mut op = client.subscribe(uri("t"), &mut ids).unwrap();
    all_steps(&mut op.send, established(true));
    assert!(!hear(
        &mut client,
        Some(RxMessage::Subscribed(rx::Subscribed {
            request: Id::from_raw_value(1),
            subscription: Id::from_raw_value(9),
        }))
    ));
    assert!(!hear(
        &mut client,
        Some(RxMessage::Event(event(9, Some(vec![TV::Integer(42)]))))
    ));
    let stream = match op.poll_reply(
        going(established(true)),
        &mut client.received,
        &mut client.task_tracker,
        3,
        50,
    ) {
        Poll::Ready(Ok(subscribed)) => subscribed.stream,
        _ => panic!("the request was answered"),
    };
    match stream.poll_next(false, &mut client.received, 4) {
        Poll::Ready(Some(broadcast)) => assert_eq!(vec![TV::Integer(42)], broadcast.arguments),
        _ => panic!("an event was there"),
    }
}

#[test]
fn failure_leaves_the_first_broadcasts_sent() {
    let watch = going(established(true));
    let mut ids = SessionIdSource::new();
    let mut client = client(established(true));
    let (mut op, _) = client
        .publish(uri("t"), vec![broadcast(1), broadcast(2), broadcast(3)])
        .unwrap();
    let outcomes = vec![
        (watch, Ok(())),
        (watch, Ok(())),
        (watch, Err("not ready".to_string())),
        (late(established(true)), Ok(())),
        (watch, Ok(())),
    ];
    let steps: Vec<String> = outcomes
        .into_iter()
        .map(|(watch, outcome)| described(op.advance(watch, outcome, &mut ids)))
        .collect();
    assert_eq!(
        vec![
            r#"[16,1,{},"t",[1],{"k":1}]"#,
            "ready",
            "transport sink failed to become ready to send PUBLISH: not ready",
            "timed out",
            r#"[16,2,{},"t",[2],{"k":2}]"#,
        ],
        steps
    );
}

#[test]
fn operations_have_their_time_limits() {
    let mut config = ClientConfig::new("ws://127.0.0.1:9001", uri("org.test"));
    assert_eq!(
        Duration::from_secs(10),
        time_limit(&config, Accepted::Established)
    );
    assert_eq!(
        Duration::from_secs(1),
        time_limit(&config, Accepted::ShuttingDown)
    );
    config.timeout = Duration { secs: 2, nanos: 5 };
    config.shutdown_timeout = Duration::from_secs(3);
    assert_eq!(
        Duration { secs: 2, nanos: 5 },
        time_limit(&config, Accepted::Established)
    );
    assert_eq!(
        Duration::from_secs(3),
        time_limit(&config, Accepted::ShuttingDown)
    );
}

#[test]
fn open_client_is_dropped() {
    let mut open = client(established(true));
    open.task_tracker
        .track_subscription(Id::from_raw_value(1), 7);
    let dropped = open.dropped();
    assert!(dropped.still_open);
    assert!(dropped.panics);
    assert_eq!(vec![7], dropped.stopped);
    assert_eq!(Some(100), dropped.msg_listener);
    assert_eq!(None, open.dropped().msg_listener);

    let mut quiet = initialize(Ok(()), 1, false).unwrap();
    let dropped = quiet.dropped();
    assert!(dropped.still_open);
    assert!(!dropped.panics);
}

#[test]
fn tasks_are_tracked() {
    let mut tracker = ClientTaskTracker::new(1);
    assert_eq!(None, tracker.track_subscription(Id::from_raw_value(5), 50));
    assert_eq!(None, tracker.track_subscription(Id::from_raw_value(6), 60));
    assert_eq!(None, tracker.track_subscription(Id::from_raw_value(7), 70));
    assert_eq!(
        Some(60),
        tracker.track_subscription(Id::from_raw_value(6), 61)
    );
    assert_eq!(Some(50), tracker.stop_subscription(Id::from_raw_value(5)));
    assert_eq!(None, tracker.stop_subscription(Id::from_raw_value(5)));
    assert_eq!(vec![61, 70], tracker.stop_all_subscriptions());
    assert!(tracker.stop_all_except_message_listener().is_empty());
    assert_eq!(Some(1), tracker.stop_message_listener());
    assert_eq!(None, tracker.stop_message_listener());
}

#[test]
fn subscriptions_compare_by_id() {
    let a = Subscription {
        id: Id::from_raw_value(1),
    };
    let b = Subscription {
        id: Id::from_raw_value(1),
    };
    let c = Subscription {
        id: Id::from_raw_value(2),
    };
    assert_eq!(a, b);
    assert_ne!(a, c);
}

#[test]
fn error_texts() {
    assert_eq!("timed out", WampError::Timeout.text());
    assert_eq!(
        "transport failed to connect: refused",
        WampError::ConnectFailed("refused".into()).text()
    );
}

#[test]
fn builder_initializes_a_client() {
    let welcome = RxMessage::Welcome(rx::Welcome {
        session: Id::from_raw_value(3),
        details: Dict::new(),
    });
    let builder = ClientBuilder::open_transport();
    assert_eq!(
        concat_hello(""),
        builder.hello(uri("org.test")).to_json().write().unwrap()
    );
    let client = builder.initialize(FirstEvent::Received(welcome)).unwrap();
    assert_eq!(3, client.session.raw_value());
    assert_eq!(Duration::from_secs(30), client.timeout);
    assert!(!client.router_capabilities.broker);
}

#[test]
fn builder_fails() {
    let mut builder = ClientBuilder::open_transport();
    builder.set_protocol_timeout(Duration { secs: 5, nanos: 1 });
    match builder.initialize(FirstEvent::TimedOut) {
        Err(InitializeError::Timeout { time }) => {
            assert_eq!(Duration { secs: 5, nanos: 1 }, time)
        }
        _ => panic!("the time was up"),
    }
    assert!(matches!(
        ClientBuilder::open_transport().initialize(FirstEvent::StreamEnded),
        Err(InitializeError::TransportStreamClosed)
    ));
    assert!(matches!(
        ClientBuilder::open_transport().initialize(FirstEvent::Failed("x".into())),
        Err(InitializeError::Transport(_))
    ));
    let unexpected = RxMessage::Unsubscribed(rx::Unsubscribed {
        request: Id::from_raw_value(1),
    });
    match ClientBuilder::open_transport().initialize(FirstEvent::Received(unexpected)) {
        Err(InitializeError::UnexpectedMessage { message, expecting }) => {
            assert!(matches!(message, RxMessage::Unsubscribed(_)));
            assert_eq!("Welcome", expecting);
        }
        _ => panic!("another message was expected"),
    }
}

#[test]
fn nothing_is_sent_twice() {
    let mut client = client(established(true));
    let mut op = begun_ack(&mut client);
    assert_eq!(
        "sent",
        described(op.send.advance(going(established(true)), Ok(())))
    );
    assert_eq!(
        "sent",
        described(
            op.send
                .advance(going(established(true)), Err("late".into()))
        )
    );
}

#[test]
fn no_requests_after_close() {
    let mut ids = SessionIdSource::new();
    let mut client = client(established(true));
    client.close(uri("x"));
    assert!(client.subscribe(uri("t"), &mut ids).is_err());
    client.closed(Ok(())).unwrap();
    assert!(client.subscribe(uri("t"), &mut ids).is_err());
    assert!(client.publish(uri("t"), vec![]).is_err());
}
