use pulsar_connector::{
    message_timestamp, Action, ConnectError, ConsumerSettings, ControlMessage, ErrorDomain, Event,
    Json, Phase, PulsarConfig, PulsarConfigAuthentication, PulsarSourceFunc, PulsarTable, Received,
    RetryHint, RunError, SourceFinishType, StateTable, StopMode, SubType, SubscriptionType,
    TaskInfo, FLUSH_INTERVAL_MILLIS,
};

type TestPhase = Phase<u32>;
type TestEvent = Event<u32, &'static str, &'static str, &'static str>;
type TestActionOf = Action<u32, &'static str, &'static str, &'static str>;

fn json(text: &str) -> Json {
    Json { text: text.to_string() }
}

fn config() -> PulsarConfig {
    PulsarConfig {
        service_url: "pulsar://localhost:6650".to_string(),
        namespace: None,
        authentication: PulsarConfigAuthentication::Anonymous,
        tls: None,
    }
}

fn source(kind: Option<SubscriptionType>) -> PulsarSourceFunc {
    PulsarSourceFunc {
        config: config(),
        table: PulsarTable {
            topic: "orders".to_string(),
            subscription: "sub".to_string(),
            subscription_type: kind,
        },
        format: json("json"),
        framing: Some(json("newline")),
        bad_data: None,
        metadata_fields: vec![json("m")],
    }
}

fn task() -> TaskInfo {
    TaskInfo { job_id: "job_1".to_string(), operator_id: "op_2".to_string() }
}

fn run(phase: TestPhase, event: TestEvent) -> (TestPhase, TestActionOf) {
    assert!(phase.expects(&event));
    source(None).run(&task(), phase, event)
}

fn failure(message: &str) -> (TestPhase, TestActionOf) {
    (
        Phase::Ended,
        Action::Finish(Err(RunError::Connector {
            domain: ErrorDomain::External,
            retry: RetryHint::WithBackoff,
            message: message.to_string(),
        })),
    )
}

fn message(number: u32, event_time: Option<u64>) -> TestEvent {
    Event::Received(Received::Message {
        message: number,
        payload: vec![1, 2, 3],
        event_time,
        publish_time: 2000,
    })
}

#[test]
fn source_has_a_name_and_a_state_table() {
    assert_eq!(source(None).name(), "pulsar-source-orders");
    assert_eq!(
        source(None).tables(),
        StateTable { name: "p".to_string(), description: "Pulsar source state".to_string() }
    );
    assert_eq!(FLUSH_INTERVAL_MILLIS, 50);
}

#[test]
fn message_has_the_time_of_its_event_or_of_its_publication() {
    assert_eq!(message_timestamp(Some(5), 9), 5);
    assert_eq!(message_timestamp(Some(0), 9), 0);
    assert_eq!(message_timestamp(None, 9), 9);
}

#[test]
fn source_starts_in_order() {
    let (phase, action) = run(Phase::Created, Event::Begun);
    assert_eq!(
        action,
        Action::InitializeDeserializer {
            format: json("json"),
            framing: Some(json("newline")),
            bad_data: None,
            metadata_fields: vec![json("m")],
        }
    );
    let (phase, action) = run(phase, Event::Initialized);
    assert_eq!(action, Action::Connect { config: config() });
    let (phase, action) = run(phase, Event::Connected(Ok(())));
    assert_eq!(
        action,
        Action::Subscribe(ConsumerSettings {
            topic: "orders".to_string(),
            subscription: "sub".to_string(),
            subscription_type: SubType::Exclusive,
            consumer_name: "job_1-op_2".to_string(),
        })
    );
    assert_eq!(run(phase, Event::Subscribed(Ok(()))), (Phase::Waiting, Action::Wait));
}

#[test]
fn subscription_type_is_asked_for() {
    for (kind, expected) in [
        (None, SubType::Exclusive),
        (Some(SubscriptionType::Exclusive), SubType::Exclusive),
        (Some(SubscriptionType::Failover), SubType::Failover),
        (Some(SubscriptionType::Shared), SubType::Shared),
        (Some(SubscriptionType::KeyShared), SubType::KeyShared),
    ] {
        let event: TestEvent = Event::Connected(Ok(()));
        let (_, action) = source(kind).run(&task(), Phase::Connecting, event);
        match action {
            Action::Subscribe(settings) => assert_eq!(settings.subscription_type, expected),
            _ => panic!("no subscription"),
        }
    }
}

#[test]
fn source_that_cannot_start_is_tried_again() {
    let error = ConnectError {
        context: "invalid Pulsar token".to_string(),
        cause: "not set".to_string(),
    };
    assert_eq!(
        run(Phase::Connecting, Event::Connected(Err(error))),
        failure("failed to connect to Pulsar: invalid Pulsar token")
    );
    assert_eq!(
        run(Phase::Subscribing, Event::Subscribed(Err("busy".to_string()))),
        failure("failed to subscribe to Pulsar topic 'orders': busy")
    );
}

#[test]
fn message_is_acknowledged_after_it_was_read() {
    let (phase, action) = run(Phase::Waiting, message(7, Some(1000)));
    assert_eq!(phase, Phase::Deserializing(7));
    assert_eq!(action, Action::Deserialize { payload: vec![1, 2, 3], timestamp: 1000 });
    assert!(!phase.expects(&message(8, None)));
    let (phase, action) = run(phase, Event::Deserialized(Ok(())));
    assert_eq!(action, Action::Acknowledge { message: 7 });
    let (phase, action) = run(phase, Event::Acknowledged(Ok(())));
    assert_eq!(action, Action::CheckFlush);
    let (phase, action) = run(phase, Event::FlushDue(true));
    assert_eq!(action, Action::Flush);
    assert_eq!(run(phase, Event::Flushed(Ok(()))), (Phase::Waiting, Action::Wait));
}

#[test]
fn message_that_cannot_be_read_is_not_acknowledged() {
    let (phase, action) = run(Phase::Waiting, message(7, None));
    assert_eq!(action, Action::Deserialize { payload: vec![1, 2, 3], timestamp: 2000 });
    assert_eq!(
        run(phase, Event::Deserialized(Err("bad data"))),
        (Phase::Ended, Action::Finish(Err(RunError::Engine("bad data"))))
    );
}

#[test]
fn broker_that_fails_ends_the_source() {
    assert_eq!(
        run(Phase::Acknowledging, Event::Acknowledged(Err("gone".to_string()))),
        failure("failed to acknowledge Pulsar message: gone")
    );
    let failed = Received::Failed { cause: "lost".to_string() };
    assert_eq!(
        run(Phase::Waiting, Event::Received(failed)),
        failure("Pulsar consumer error: lost")
    );
    assert_eq!(
        run(Phase::Waiting, Event::Received(Received::Closed)),
        (Phase::Ended, Action::Finish(Ok(SourceFinishType::Graceful)))
    );
}

#[test]
fn source_flushes_when_due() {
    let (phase, action) = run(Phase::Waiting, Event::Tick);
    assert_eq!(action, Action::CheckFlush);
    assert_eq!(run(phase, Event::FlushDue(false)), (Phase::Waiting, Action::Wait));
    assert_eq!(
        run(Phase::Flushing, Event::Flushed(Err("full"))),
        (Phase::Ended, Action::Finish(Err(RunError::Engine("full"))))
    );
}

#[test]
fn source_obeys_the_engine() {
    let control = |message| run(Phase::Waiting, Event::Control(message));
    assert_eq!(
        control(Some(ControlMessage::Stop { mode: StopMode::Graceful })),
        (Phase::Ended, Action::Finish(Ok(SourceFinishType::Graceful)))
    );
    assert_eq!(
        control(Some(ControlMessage::Stop { mode: StopMode::Immediate })),
        (Phase::Ended, Action::Finish(Ok(SourceFinishType::Immediate)))
    );
    assert_eq!(
        control(Some(ControlMessage::LoadCompacted { compacted: "data" })),
        (Phase::Loading, Action::LoadCompacted { compacted: "data" })
    );
    assert_eq!(run(Phase::Loading, Event::Loaded), (Phase::Waiting, Action::Wait));
    assert_eq!(control(Some(ControlMessage::NoOp)), (Phase::Waiting, Action::Wait));
    assert_eq!(control(None), (Phase::Waiting, Action::Wait));
}

#[test]
fn checkpoint_may_end_the_source() {
    let barrier = Event::Control(Some(ControlMessage::Checkpoint("barrier")));
    let (phase, action) = run(Phase::Waiting, barrier);
    assert_eq!(action, Action::StartCheckpoint { checkpoint: "barrier" });
    assert_eq!(
        run(phase, Event::Checkpointed { stop: false }),
        (Phase::Waiting, Action::Wait)
    );
    assert_eq!(
        run(Phase::Checkpointing, Event::Checkpointed { stop: true }),
        (Phase::Ended, Action::Finish(Ok(SourceFinishType::Immediate)))
    );
}

#[test]
fn commit_is_never_for_a_source() {
    let commit: TestEvent = Event::Control(Some(ControlMessage::Commit));
    let waiting: TestPhase = Phase::Waiting;
    assert!(!waiting.expects(&commit));
}

#[test]
fn nothing_follows_the_end() {
    let ended: TestPhase = Phase::Ended;
    let events: Vec<TestEvent> = vec![
        Event::Begun,
        Event::Tick,
        message(1, None),
        Event::Control(None),
        Event::FlushDue(true),
        Event::Loaded,
    ];
    for event in &events {
        assert!(!ended.expects(event));
    }
}
