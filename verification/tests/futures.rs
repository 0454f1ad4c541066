//! Operations over a transport that listens by itself.

use wamp_proto::client::futures::close::CloseFuture;
use wamp_proto::client::futures::initialize::{
    InitializeFuture, Progress, ProtocolMessageListener, ProtocolMessageListenerState, ProtocolStep,
};
use wamp_proto::client::futures::subscribe::{SubscriptionFuture, SubscriptionListener};
use wamp_proto::client::futures::{FutureError, QueueStage, QueueStep, SinkPoll};
use wamp_proto::client::task_tracker::ClientTaskTracker;
use wamp_proto::client::{ClientState, Duration, RouterCapabilities};
use wamp_proto::pollable::Poll;
use wamp_proto::proto::rx;
use wamp_proto::received::ReceivedValues;
use wamp_proto::transport::TransportableValue as TV;
use wamp_proto::{Dict, Id, SessionIdSource, Uri};

fn uri(text: &str) -> Uri {
    Uri::raw(text.into())
}

fn established() -> ClientState {
    ClientState::Established {
        session_id: Id::from_raw_value(1),
        router_capabilities: RouterCapabilities {
            broker: true,
            dealer: true,
        },
    }
}

fn abort() -> rx::Abort {
    rx::Abort {
        details: Dict::new(),
        reason: uri("a"),
    }
}

fn goodbye() -> rx::Goodbye {
    rx::Goodbye {
        details: Dict::new(),
        reason: uri("g"),
    }
}

fn text(error: FutureError) -> String {
    match error {
        FutureError::Wamp(error) => error.text(),
        FutureError::Transport(error) => error,
    }
}

fn described(step: QueueStep) -> String {
    match step {
        QueueStep::Pending => "pending".to_string(),
        QueueStep::Again => "again".to_string(),
        QueueStep::Failed(error) => text(error),
    }
}

#[test]
fn client_is_initialized() {
    let mut future = InitializeFuture::new(
        uri("org.test"),
        Duration::from_secs(2),
        Duration::from_secs(3),
        true,
    );
    let hello = future.send.take_message().unwrap();
    assert_eq!(1, hello.get_message_code());
    assert!(future.send.take_message().is_none());
    assert_eq!(
        "pending",
        described(future.poll_sink(false, SinkPoll::NotReady(Some(hello))))
    );
    assert!(future.send.take_message().is_some());
    assert_eq!("again", described(future.poll_sink(false, SinkPoll::Ready)));
    assert_eq!(QueueStage::Sending, future.send.stage());
    assert_eq!(
        "pending",
        described(future.poll_sink(false, SinkPoll::NotReady(None)))
    );
    assert_eq!("again", described(future.poll_sink(false, SinkPoll::Ready)));
    assert_eq!(QueueStage::Sent, future.send.stage());

    let mut received = ReceivedValues::default();
    assert!(matches!(
        future.poll_welcome(false, &mut received, 1),
        Poll::Pending
    ));
    let mut roles = Dict::new();
    roles.insert("broker".into(), TV::Dict(Dict::new()));
    let mut details = Dict::new();
    details.insert("roles".into(), TV::Dict(roles));
    assert_eq!(
        vec![1],
        received.welcome.insert(rx::Welcome {
            session: Id::from_raw_value(6),
            details,
        })
    );
    match future.poll_welcome(false, &mut received, 1) {
        Poll::Ready(Ok(session)) => {
            assert_eq!(6, session.session_id.raw_value());
            assert!(session.router_capabilities.broker);
            assert!(!session.router_capabilities.dealer);
            assert_eq!(Duration::from_secs(2), session.timeout_duration);
            assert_eq!(Duration::from_secs(3), session.shutdown_timeout_duration);
            assert!(session.panic_on_drop_while_open);
            assert!(session.state.is_established());
            assert_eq!(ProtocolMessageListenerState::Ready, session.listener.state);
        }
        _ => panic!("a WELCOME message was there"),
    }
}

#[test]
fn initialization_fails() {
    let second = Duration::from_secs(1);
    let mut future = InitializeFuture::new(uri("r"), second, second, false);
    assert_eq!(
        "timed out",
        described(future.poll_sink(true, SinkPoll::Ready))
    );
    assert_eq!(
        "broken",
        described(future.poll_sink(false, SinkPoll::Failed("broken".into())))
    );
    future.poll_sink(false, SinkPoll::Ready);
    future.poll_sink(false, SinkPoll::Ready);
    assert_eq!(QueueStage::Sent, future.send.stage());
    match future.poll_welcome(true, &mut ReceivedValues::default(), 1) {
        Poll::Ready(Err(error)) => assert_eq!("timed out", text(error)),
        _ => panic!("the time was up"),
    }
}

#[test]
fn connection_is_closed() {
    let mut received = ReceivedValues::default();
    let mut state = ClientState::ShuttingDown;
    let mut future = CloseFuture::new(uri("x"));
    assert_eq!(
        r#"[6,{},"x"]"#,
        future
            .send
            .take_message()
            .unwrap()
            .to_json()
            .write()
            .unwrap()
    );
    assert_eq!(
        "again",
        described(future.poll_sink(false, &mut received, 1, SinkPoll::Ready))
    );
    assert_eq!(
        "again",
        described(future.poll_sink(false, &mut received, 1, SinkPoll::Ready))
    );
    assert!(matches!(
        future.poll_goodbye(false, &mut received, &mut state, 1),
        Poll::Pending
    ));
    assert!(state == ClientState::ShuttingDown);
    received.goodbye.insert(goodbye());
    assert!(matches!(
        future.poll_goodbye(false, &mut received, &mut state, 1),
        Poll::Ready(Ok(()))
    ));
    assert!(state == ClientState::Closed);
}

#[test]
fn closing_ends_with_errors_of_the_transport() {
    let mut received = ReceivedValues::default();
    let mut state = ClientState::ShuttingDown;
    let mut future = CloseFuture::new(uri("x"));
    received.transport_errors.insert("first".into());
    assert_eq!(
        "timed out",
        described(future.poll_sink(true, &mut received, 1, SinkPoll::Ready))
    );
    assert_eq!(
        "first",
        described(future.poll_sink(false, &mut received, 1, SinkPoll::Ready))
    );
    future.poll_sink(false, &mut received, 1, SinkPoll::Ready);
    future.poll_sink(false, &mut received, 1, SinkPoll::Ready);
    assert_eq!(QueueStage::Sent, future.send.stage());
    received.transport_errors.insert("second".into());
    received.goodbye.insert(goodbye());
    match future.poll_goodbye(false, &mut received, &mut state, 1) {
        Poll::Ready(Err(error)) => assert_eq!("second", text(error)),
        _ => panic!("the transport had failed"),
    }
    assert!(state == ClientState::ShuttingDown);
    assert_eq!(1, received.goodbye.len());
}

#[test]
fn topic_is_subscribed_to() {
    let mut ids = SessionIdSource::new();
    let mut received = ReceivedValues::default();
    let mut tracker = ClientTaskTracker::new(0);
    let mut future = SubscriptionFuture::new(uri("t"), &mut ids);
    assert_eq!(
        r#"[32,1,{},"t"]"#,
        future
            .send
            .take_message()
            .unwrap()
            .to_json()
            .write()
            .unwrap()
    );
    assert_eq!(
        "again",
        described(future.poll_sink(false, established(), SinkPoll::Ready))
    );
    assert_eq!(
        "the client is in an invalid state",
        described(future.poll_sink(false, ClientState::Closed, SinkPoll::Ready))
    );
    assert_eq!(
        "timed out",
        described(future.poll_sink(true, ClientState::Closed, SinkPoll::Ready))
    );
    assert_eq!(
        "again",
        described(future.poll_sink(false, established(), SinkPoll::Ready))
    );
    received.subscribed.insert(rx::Subscribed {
        request: Id::from_raw_value(2),
        subscription: Id::from_raw_value(20),
    });
    assert!(matches!(
        future.poll_subscribed(false, established(), &mut received, &mut tracker, 3, 70),
        Poll::Pending
    ));
    received.subscribed.insert(rx::Subscribed {
        request: Id::from_raw_value(1),
        subscription: Id::from_raw_value(10),
    });
    match future.poll_subscribed(false, ClientState::Closing, &mut received, &mut tracker, 3, 70) {
        Poll::Ready(Err(error)) => assert_eq!("the client is in an invalid state", text(error)),
        _ => panic!("the session was over"),
    }
    match future.poll_subscribed(false, established(), &mut received, &mut tracker, 3, 70) {
        Poll::Ready(Ok(new)) => {
            assert_eq!(10, new.subscription.raw_value());
            assert_eq!(None, new.displaced);
        }
        _ => panic!("the request was answered"),
    }
    assert_eq!(vec![70], tracker.stop_all_subscriptions());
}

fn event(subscription: u64, value: u64) -> rx::Event {
    rx::Event {
        subscription: Id::from_raw_value(subscription),
        publication: Id::from_raw_value(1),
        details: Dict::new(),
        arguments: Some(vec![TV::Integer(value)]),
        arguments_kw: None,
    }
}

#[test]
fn events_come_by_subscription() {
    let mut received = ReceivedValues::default();
    let listener = SubscriptionListener {
        subscription_id: Id::from_raw_value(2),
    };
    received.event.insert(event(1, 10));
    assert!(matches!(
        listener.poll_next(false, &mut received, 5),
        Poll::Pending
    ));
    assert_eq!(vec![5], received.event.insert(event(2, 20)));
    received.event.insert(event(2, 21));
    for expected in vec![20, 21] {
        match listener.poll_next(false, &mut received, 5) {
            Poll::Ready(Some(broadcast)) => {
                assert_eq!(vec![TV::Integer(expected)], broadcast.arguments)
            }
            _ => panic!("an event was there"),
        }
    }
    assert!(matches!(
        listener.poll_next(true, &mut received, 5),
        Poll::Ready(None)
    ));
    assert_eq!(1, received.event.len());
}

fn turn(
    listener: &mut ProtocolMessageListener,
    progress: Progress,
    values: &mut ReceivedValues,
    state: &mut ClientState,
) -> ProtocolStep {
    listener.poll_step(false, progress, values, state, 1)
}

#[test]
fn goodbye_is_answered() {
    let mut values = ReceivedValues::default();
    let mut state = established();
    let mut listener = ProtocolMessageListener::new();
    assert_eq!(
        r#"[6,{},"wamp.error.goodbye_and_out"]"#,
        listener.goodbye_reply().to_json().write().unwrap()
    );
    assert_eq!(
        ProtocolStep::Pending,
        turn(&mut listener, Progress::Ready, &mut values, &mut state)
    );
    assert_eq!(vec![1], values.goodbye.insert(goodbye()));
    let expected = vec![
        (Progress::NotReady, ProtocolStep::Again),
        (Progress::NotReady, ProtocolStep::Pending),
        (Progress::Ready, ProtocolStep::Again),
        (Progress::NotReady, ProtocolStep::Pending),
        (Progress::Ready, ProtocolStep::Again),
        (Progress::NotReady, ProtocolStep::StopTasksAndClose),
        (Progress::NotReady, ProtocolStep::Pending),
        (Progress::Ready, ProtocolStep::Finished),
    ];
    for (progress, step) in expected {
        assert_eq!(step, turn(&mut listener, progress, &mut values, &mut state));
        assert!(state == ClientState::Closing);
    }
}

#[test]
fn abort_stops_everything() {
    let mut values = ReceivedValues::default();
    values.abort.insert(abort());
    values.goodbye.insert(goodbye());
    let mut state = ClientState::ShuttingDown;
    let mut listener = ProtocolMessageListener::new();
    assert_eq!(
        ProtocolStep::Again,
        turn(&mut listener, Progress::NotReady, &mut values, &mut state)
    );
    assert!(state == ClientState::Closed);
    assert_eq!(
        ProtocolStep::StopTasksAndClose,
        turn(&mut listener, Progress::NotReady, &mut values, &mut state)
    );
    assert_eq!(
        ProtocolStep::Failed,
        turn(&mut listener, Progress::Failed, &mut values, &mut state)
    );
    assert_eq!(1, values.goodbye.len());
}

#[test]
fn expected_goodbye_is_left() {
    let mut values = ReceivedValues::default();
    values.goodbye.insert(goodbye());
    let mut state = ClientState::ShuttingDown;
    let mut listener = ProtocolMessageListener::new();
    assert_eq!(
        ProtocolStep::Pending,
        turn(&mut listener, Progress::NotReady, &mut values, &mut state)
    );
    assert_eq!(1, values.goodbye.len());
    assert_eq!(
        ProtocolStep::Finished,
        listener.poll_step(true, Progress::NotReady, &mut values, &mut state, 1)
    );
}
