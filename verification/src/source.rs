//! The source: what it does with each thing that happens while it runs.

use crate::config::{ConfigView, PulsarConfig, PulsarTable, SubscriptionType, TableView};
use crate::connect::outcome_view;
use crate::error::{connect_result, ConnectError, ConnectErrorView};
use crate::schema::{clone_json_list, clone_opt_json, json_list, opt_json, Json};
use vstd::prelude::*;
use vstd::string::StringExecFns;

verus! {

/// A source that reads one topic.
#[derive(Debug, PartialEq, Eq)]
pub struct PulsarSourceFunc {
    pub config: PulsarConfig,
    pub table: PulsarTable,
    pub format: Json,
    pub framing: Option<Json>,
    pub bad_data: Option<Json>,
    pub metadata_fields: Vec<Json>,
}

/// The view of a `PulsarSourceFunc`.
#[verifier::ext_equal]
pub struct SourceView {
    pub config: ConfigView,
    pub table: TableView,
    pub format: Seq<char>,
    pub framing: Option<Seq<char>>,
    pub bad_data: Option<Seq<char>>,
    pub metadata_fields: Seq<Seq<char>>,
}

impl View for PulsarSourceFunc {
    type V = SourceView;

    open spec fn view(&self) -> SourceView {
        SourceView {
            config: self.config@,
            table: self.table@,
            format: self.format@,
            framing: opt_json(self.framing),
            bad_data: opt_json(self.bad_data),
            metadata_fields: json_list(self.metadata_fields@),
        }
    }
}

/// A table in which a source keeps state that all its tasks share.
#[derive(Debug, PartialEq, Eq)]
pub struct StateTable {
    pub name: String,
    pub description: String,
}

/// The task that runs a source.
#[derive(Debug, PartialEq, Eq)]
pub struct TaskInfo {
    pub job_id: String,
    pub operator_id: String,
}

/// The view of a `TaskInfo`.
#[verifier::ext_equal]
pub struct TaskView {
    pub job_id: Seq<char>,
    pub operator_id: Seq<char>,
}

impl View for TaskInfo {
    type V = TaskView;

    open spec fn view(&self) -> TaskView {
        TaskView { job_id: self.job_id@, operator_id: self.operator_id@ }
    }
}

/// How a consumer asks the broker to share a subscription's messages out.
#[derive(Clone, Copy, Debug, PartialEq, Eq, Structural)]
pub enum SubType {
    Exclusive,
    Shared,
    Failover,
    KeyShared,
}

/// What a table's subscription type asks for. Without one the subscription is exclusive.
pub open spec fn sub_type_of(kind: Option<SubscriptionType>) -> SubType {
    match kind {
        Some(SubscriptionType::Failover) => SubType::Failover,
        Some(SubscriptionType::Shared) => SubType::Shared,
        Some(SubscriptionType::KeyShared) => SubType::KeyShared,
        _ => SubType::Exclusive,
    }
}

/// How a consumer is set up. It receives a message's payload as bytes.
#[derive(Debug, PartialEq, Eq)]
pub struct ConsumerSettings {
    pub topic: String,
    pub subscription: String,
    pub subscription_type: SubType,
    pub consumer_name: String,
}

/// The view of a `ConsumerSettings`.
#[verifier::ext_equal]
pub struct ConsumerView {
    pub topic: Seq<char>,
    pub subscription: Seq<char>,
    pub subscription_type: SubType,
    pub consumer_name: Seq<char>,
}

impl View for ConsumerSettings {
    type V = ConsumerView;

    open spec fn view(&self) -> ConsumerView {
        ConsumerView {
            topic: self.topic@,
            subscription: self.subscription@,
            subscription_type: self.subscription_type,
            consumer_name: self.consumer_name@,
        }
    }
}

/// How the consumer of a table is set up by a task.
pub open spec fn consumer_of(table: TableView, task: TaskView) -> ConsumerView {
    ConsumerView {
        topic: table.topic,
        subscription: table.subscription,
        subscription_type: sub_type_of(table.subscription_type),
        consumer_name: task.job_id + "-"@ + task.operator_id,
    }
}

/// The time that a message stands for: that of its event if its producer gave one, else that of its
/// publication.
pub open spec fn timestamp_of(event_time: Option<u64>, publish_time: u64) -> u64 {
    match event_time {
        Some(time) => time,
        None => publish_time,
    }
}

/// The time that a message stands for. All times are milliseconds since the epoch.
pub fn message_timestamp(event_time: Option<u64>, publish_time: u64) -> (res: u64)
    ensures
        res == timestamp_of(event_time, publish_time),
{
    match event_time {
        Some(time) => time,
        None => publish_time,
    }
}

/// How long a source waits, in milliseconds, before it looks again whether something is to be passed
/// on.
pub const FLUSH_INTERVAL_MILLIS: u64 = 50;

/// How a source is told to stop.
#[derive(Clone, Copy, Debug, PartialEq, Eq, Structural)]
pub enum StopMode {
    Graceful,
    Immediate,
}

/// How a source ended.
#[derive(Clone, Copy, Debug, PartialEq, Eq, Structural)]
pub enum SourceFinishType {
    Graceful,
    Immediate,
}

/// What the engine tells a source. A checkpoint's barrier is a `C`, and data to load an `L`.
#[derive(Debug, PartialEq, Eq)]
pub enum ControlMessage<C, L> {
    Checkpoint(C),
    Stop { mode: StopMode },
    LoadCompacted { compacted: L },
    Commit,
    NoOp,
}

/// Where the reason for a failure lies.
#[derive(Clone, Copy, Debug, PartialEq, Eq, Structural)]
pub enum ErrorDomain {
    External,
}

/// Whether what failed should be tried again.
#[derive(Clone, Copy, Debug, PartialEq, Eq, Structural)]
pub enum RetryHint {
    WithBackoff,
}

/// Why a source failed. The engine's own errors are an `E`.
#[derive(Debug, PartialEq, Eq)]
pub enum RunError<E> {
    /// The connector failed.
    Connector { domain: ErrorDomain, retry: RetryHint, message: String },
    /// The engine failed at what it was asked to do.
    Engine(E),
}

/// The view of a `RunError`.
#[verifier::ext_equal]
pub enum RunErrorView<E> {
    Connector { domain: ErrorDomain, retry: RetryHint, message: Seq<char> },
    Engine(E),
}

impl<E> View for RunError<E> {
    type V = RunErrorView<E>;

    open spec fn view(&self) -> RunErrorView<E> {
        match self {
            RunError::Connector { domain, retry, message } => RunErrorView::Connector {
                domain: *domain,
                retry: *retry,
                message: message@,
            },
            RunError::Engine(error) => RunErrorView::Engine(*error),
        }
    }
}

/// What a source waits for. A message that is being read is an `M`.
#[derive(Debug, PartialEq, Eq)]
pub enum Phase<M> {
    /// Nothing was done yet.
    Created,
    /// The engine gets ready to read messages.
    Initializing,
    /// A client is set up.
    Connecting,
    /// The consumer is set up.
    Subscribing,
    /// Nothing is at hand.
    Waiting,
    /// The engine reads a message.
    Deserializing(M),
    /// The broker is told that a message was read.
    Acknowledging,
    /// The engine is asked whether what it has read is to be passed on.
    CheckingFlush,
    /// The engine passes on what it has read.
    Flushing,
    /// The engine takes a checkpoint.
    Checkpointing,
    /// The engine loads data.
    Loading,
    /// The source has ended.
    Ended,
}

/// What came from the consumer.
#[derive(Debug, PartialEq, Eq)]
pub enum Received<M> {
    /// A message, what it holds, and its times.
    Message { message: M, payload: Vec<u8>, event_time: Option<u64>, publish_time: u64 },
    /// A failure, for the cause given.
    Failed { cause: String },
    /// There are no more messages.
    Closed,
}

/// The view of a `Received`.
#[verifier::ext_equal]
pub enum ReceivedView<M> {
    Message { message: M, payload: Seq<u8>, event_time: Option<u64>, publish_time: u64 },
    Failed { cause: Seq<char> },
    Closed,
}

impl<M> View for Received<M> {
    type V = ReceivedView<M>;

    open spec fn view(&self) -> ReceivedView<M> {
        match self {
            Received::Message { message, payload, event_time, publish_time } =>
                ReceivedView::Message {
                message: *message,
                payload: payload@,
                event_time: *event_time,
                publish_time: *publish_time,
            },
            Received::Failed { cause } => ReceivedView::Failed { cause: cause@ },
            Received::Closed => ReceivedView::Closed,
        }
    }
}

/// What happens to a source. A failure of the broker carries its cause.
#[derive(Debug, PartialEq, Eq)]
pub enum Event<M, C, L, E> {
    /// The source is to run.
    Begun,
    /// The engine is ready to read messages.
    Initialized,
    /// A client was set up.
    Connected(Result<(), ConnectError>),
    /// The consumer was set up.
    Subscribed(Result<(), String>),
    /// Something came from the consumer.
    Received(Received<M>),
    /// It is time to look whether something is to be passed on.
    Tick,
    /// The engine has something to say, or has closed its end.
    Control(Option<ControlMessage<C, L>>),
    /// The engine read the message.
    Deserialized(Result<(), E>),
    /// The broker was told that the message was read.
    Acknowledged(Result<(), String>),
    /// Whether what the engine has read is to be passed on.
    FlushDue(bool),
    /// The engine passed on what it has read.
    Flushed(Result<(), E>),
    /// The engine took the checkpoint, and says whether the source is to end with it.
    Checkpointed { stop: bool },
    /// The engine loaded the data.
    Loaded,
}

/// The view of an `Event`.
#[verifier::ext_equal]
pub enum EventView<M, C, L, E> {
    Begun,
    Initialized,
    Connected(Result<(), ConnectErrorView>),
    Subscribed(Result<(), Seq<char>>),
    Received(ReceivedView<M>),
    Tick,
    Control(Option<ControlMessage<C, L>>),
    Deserialized(Result<(), E>),
    Acknowledged(Result<(), Seq<char>>),
    FlushDue(bool),
    Flushed(Result<(), E>),
    Checkpointed { stop: bool },
    Loaded,
}

impl<M, C, L, E> View for Event<M, C, L, E> {
    type V = EventView<M, C, L, E>;

    open spec fn view(&self) -> EventView<M, C, L, E> {
        match self {
            Event::Begun => EventView::Begun,
            Event::Initialized => EventView::Initialized,
            Event::Connected(outcome) => EventView::Connected(connect_result(*outcome)),
            Event::Subscribed(outcome) => EventView::Subscribed(outcome_view(*outcome)),
            Event::Received(received) => EventView::Received(received@),
            Event::Tick => EventView::Tick,
            Event::Control(control) => EventView::Control(*control),
            Event::Deserialized(outcome) => EventView::Deserialized(*outcome),
            Event::Acknowledged(outcome) => EventView::Acknowledged(outcome_view(*outcome)),
            Event::FlushDue(due) => EventView::FlushDue(*due),
            Event::Flushed(outcome) => EventView::Flushed(*outcome),
            Event::Checkpointed { stop } => EventView::Checkpointed { stop: *stop },
            Event::Loaded => EventView::Loaded,
        }
    }
}

/// What a source does next.
#[derive(Debug, PartialEq, Eq)]
pub enum Action<M, C, L, E> {
    /// Have the engine get ready to read messages.
    InitializeDeserializer {
        format: Json,
        framing: Option<Json>,
        bad_data: Option<Json>,
        metadata_fields: Vec<Json>,
    },
    /// Set up a client with this configuration.
    Connect { config: PulsarConfig },
    /// Set up the consumer.
    Subscribe(ConsumerSettings),
    /// Wait for the consumer, the ticker or the engine, whichever comes first.
    Wait,
    /// Have the engine read a message, as of a time in milliseconds since the epoch.
    Deserialize { payload: Vec<u8>, timestamp: u64 },
    /// Tell the broker that a message was read.
    Acknowledge { message: M },
    /// Ask the engine whether what it has read is to be passed on.
    CheckFlush,
    /// Have the engine pass on what it has read.
    Flush,
    /// Have the engine take a checkpoint.
    StartCheckpoint { checkpoint: C },
    /// Have the engine load data.
    LoadCompacted { compacted: L },
    /// End.
    Finish(Result<SourceFinishType, RunError<E>>),
}

/// The view of an `Action`.
#[verifier::ext_equal]
pub enum ActionView<M, C, L, E> {
    InitializeDeserializer {
        format: Seq<char>,
        framing: Option<Seq<char>>,
        bad_data: Option<Seq<char>>,
        metadata_fields: Seq<Seq<char>>,
    },
    Connect { config: ConfigView },
    Subscribe(ConsumerView),
    Wait,
    Deserialize { payload: Seq<u8>, timestamp: u64 },
    Acknowledge { message: M },
    CheckFlush,
    Flush,
    StartCheckpoint { checkpoint: C },
    LoadCompacted { compacted: L },
    Finish(Result<SourceFinishType, RunErrorView<E>>),
}

/// The view of how a source ended.
pub open spec fn finish_view<E>(outcome: Result<SourceFinishType, RunError<E>>) -> Result<
    SourceFinishType,
    RunErrorView<E>,
> {
    match outcome {
        Ok(finish) => Ok(finish),
        Err(error) => Err(error@),
    }
}

impl<M, C, L, E> View for Action<M, C, L, E> {
    type V = ActionView<M, C, L, E>;

    open spec fn view(&self) -> ActionView<M, C, L, E> {
        match self {
            Action::InitializeDeserializer { format, framing, bad_data, metadata_fields } =>
                ActionView::InitializeDeserializer {
                format: format@,
                framing: opt_json(*framing),
                bad_data: opt_json(*bad_data),
                metadata_fields: json_list(metadata_fields@),
            },
            Action::Connect { config } => ActionView::Connect { config: config@ },
            Action::Subscribe(settings) => ActionView::Subscribe(settings@),
            Action::Wait => ActionView::Wait,
            Action::Deserialize { payload, timestamp } => ActionView::Deserialize {
                payload: payload@,
                timestamp: *timestamp,
            },
            Action::Acknowledge { message } => ActionView::Acknowledge { message: *message },
            Action::CheckFlush => ActionView::CheckFlush,
            Action::Flush => ActionView::Flush,
            Action::StartCheckpoint { checkpoint } => ActionView::StartCheckpoint {
                checkpoint: *checkpoint,
            },
            Action::LoadCompacted { compacted } => ActionView::LoadCompacted {
                compacted: *compacted,
            },
            Action::Finish(outcome) => ActionView::Finish(finish_view(*outcome)),
        }
    }
}

/// Whether an event can happen in a phase. Of what the engine may say, a commit is never for a
/// source.
pub open spec fn awaited<M, C, L, E>(phase: Phase<M>, event: EventView<M, C, L, E>) -> bool {
    match event {
        EventView::Begun => phase is Created,
        EventView::Initialized => phase is Initializing,
        EventView::Connected(_) => phase is Connecting,
        EventView::Subscribed(_) => phase is Subscribing,
        EventView::Received(_) => phase is Waiting,
        EventView::Tick => phase is Waiting,
        EventView::Control(Some(control)) => phase is Waiting && !(control is Commit),
        EventView::Control(None) => phase is Waiting,
        EventView::Deserialized(_) => phase is Deserializing,
        EventView::Acknowledged(_) => phase is Acknowledging,
        EventView::FlushDue(_) => phase is CheckingFlush,
        EventView::Flushed(_) => phase is Flushing,
        EventView::Checkpointed { stop } => phase is Checkpointing,
        EventView::Loaded => phase is Loading,
    }
}

/// One step: the phase afterwards, and what is done next.
#[verifier::ext_equal]
pub struct Step<M, C, L, E> {
    pub phase: Phase<M>,
    pub action: ActionView<M, C, L, E>,
}

/// Waiting, with nothing at hand.
pub open spec fn waits<M, C, L, E>() -> Step<M, C, L, E> {
    Step { phase: Phase::Waiting, action: ActionView::Wait }
}

/// The end, in the way given.
pub open spec fn ends<M, C, L, E>(outcome: Result<SourceFinishType, RunErrorView<E>>) -> Step<
    M,
    C,
    L,
    E,
> {
    Step { phase: Phase::Ended, action: ActionView::Finish(outcome) }
}

/// The end, with a failure of the connector.
pub open spec fn fails<M, C, L, E>(message: Seq<char>) -> Step<M, C, L, E> {
    ends(
        Err(
            RunErrorView::Connector {
                domain: ErrorDomain::External,
                retry: RetryHint::WithBackoff,
                message,
            },
        ),
    )
}

/// The step that an event leads to.
pub open spec fn run_step<M, C, L, E>(
    source: SourceView,
    task: TaskView,
    phase: Phase<M>,
    event: EventView<M, C, L, E>,
) -> Step<M, C, L, E> {
    match event {
        EventView::Begun => Step {
            phase: Phase::Initializing,
            action: ActionView::InitializeDeserializer {
                format: source.format,
                framing: source.framing,
                bad_data: source.bad_data,
                metadata_fields: source.metadata_fields,
            },
        },
        EventView::Initialized => Step {
            phase: Phase::Connecting,
            action: ActionView::Connect { config: source.config },
        },
        EventView::Connected(Ok(_)) => Step {
            phase: Phase::Subscribing,
            action: ActionView::Subscribe(consumer_of(source.table, task)),
        },
        EventView::Connected(Err(error)) => fails("failed to connect to Pulsar: "@ + error.context),
        EventView::Subscribed(Ok(_)) => waits(),
        EventView::Subscribed(Err(cause)) => fails(
            "failed to subscribe to Pulsar topic '"@ + source.table.topic + "': "@ + cause,
        ),
        EventView::Received(
            ReceivedView::Message { message, payload, event_time, publish_time },
        ) => Step {
            phase: Phase::Deserializing(message),
            action: ActionView::Deserialize {
                payload,
                timestamp: timestamp_of(event_time, publish_time),
            },
        },
        EventView::Received(ReceivedView::Failed { cause }) => fails(
            "Pulsar consumer error: "@ + cause,
        ),
        EventView::Received(ReceivedView::Closed) => ends(Ok(SourceFinishType::Graceful)),
        EventView::Tick => Step { phase: Phase::CheckingFlush, action: ActionView::CheckFlush },
        EventView::Control(Some(ControlMessage::Checkpoint(checkpoint))) => Step {
            phase: Phase::Checkpointing,
            action: ActionView::StartCheckpoint { checkpoint },
        },
        EventView::Control(Some(ControlMessage::Stop { mode: StopMode::Graceful })) => ends(
            Ok(SourceFinishType::Graceful),
        ),
        EventView::Control(Some(ControlMessage::Stop { mode: StopMode::Immediate })) => ends(
            Ok(SourceFinishType::Immediate),
        ),
        EventView::Control(Some(ControlMessage::LoadCompacted { compacted })) => Step {
            phase: Phase::Loading,
            action: ActionView::LoadCompacted { compacted },
        },
        EventView::Control(_) => waits(),
        EventView::Deserialized(Ok(_)) => Step {
            phase: Phase::Acknowledging,
            action: ActionView::Acknowledge { message: phase->Deserializing_0 },
        },
        EventView::Deserialized(Err(error)) => ends(Err(RunErrorView::Engine(error))),
        EventView::Acknowledged(Ok(_)) => Step {
            phase: Phase::CheckingFlush,
            action: ActionView::CheckFlush,
        },
        EventView::Acknowledged(Err(cause)) => fails(
            "failed to acknowledge Pulsar message: "@ + cause,
        ),
        EventView::FlushDue(true) => Step { phase: Phase::Flushing, action: ActionView::Flush },
        EventView::FlushDue(false) => waits(),
        EventView::Flushed(Ok(_)) => waits(),
        EventView::Flushed(Err(error)) => ends(Err(RunErrorView::Engine(error))),
        EventView::Checkpointed { stop: true } => ends(Ok(SourceFinishType::Immediate)),
        EventView::Checkpointed { stop: false } => waits(),
        EventView::Loaded => waits(),
    }
}

impl<M> Phase<M> {
    /// Whether an event can happen in this phase.
    pub fn expects<C, L, E>(&self, event: &Event<M, C, L, E>) -> (res: bool)
        ensures
            res == awaited(*self, event@),
    {
        match (event, self) {
            (Event::Begun, Phase::Created) => true,
            (Event::Initialized, Phase::Initializing) => true,
            (Event::Connected(_), Phase::Connecting) => true,
            (Event::Subscribed(_), Phase::Subscribing) => true,
            (Event::Received(_), Phase::Waiting) => true,
            (Event::Tick, Phase::Waiting) => true,
            (Event::Control(Some(ControlMessage::Commit)), Phase::Waiting) => false,
            (Event::Control(_), Phase::Waiting) => true,
            (Event::Deserialized(_), Phase::Deserializing(_)) => true,
            (Event::Acknowledged(_), Phase::Acknowledging) => true,
            (Event::FlushDue(_), Phase::CheckingFlush) => true,
            (Event::Flushed(_), Phase::Flushing) => true,
            (Event::Checkpointed { stop: _ }, Phase::Checkpointing) => true,
            (Event::Loaded, Phase::Loading) => true,
            _ => false,
        }
    }
}

fn wait<M, C, L, E>() -> (res: (Phase<M>, Action<M, C, L, E>))
    ensures
        (Step { phase: res.0, action: res.1@ }) == waits::<M, C, L, E>(),
{
    (Phase::Waiting, Action::Wait)
}

fn end<M, C, L, E>(outcome: Result<SourceFinishType, RunError<E>>) -> (res: (
    Phase<M>,
    Action<M, C, L, E>,
))
    ensures
        (Step { phase: res.0, action: res.1@ }) == ends::<M, C, L, E>(finish_view(outcome)),
{
    (Phase::Ended, Action::Finish(outcome))
}

fn fail<M, C, L, E>(message: String) -> (res: (Phase<M>, Action<M, C, L, E>))
    ensures
        (Step { phase: res.0, action: res.1@ }) == fails::<M, C, L, E>(message@),
{
    end(
        Err(
            RunError::Connector {
                domain: ErrorDomain::External,
                retry: RetryHint::WithBackoff,
                message,
            },
        ),
    )
}

impl PulsarSourceFunc {
    /// The name of the source.
    pub fn name(&self) -> (res: String)
        ensures
            res@ == "pulsar-source-"@ + self@.table.topic,
    {
        "pulsar-source-".to_string().concat(self.table.topic.as_str())
    }

    /// The table in which the source keeps its state.
    pub fn tables(&self) -> (res: StateTable)
        ensures
            res.name@ == "p"@,
            res.description@ == "Pulsar source state"@,
    {
        StateTable { name: "p".to_string(), description: "Pulsar source state".to_string() }
    }

    /// How a task sets up the consumer.
    fn consumer_settings(&self, task: &TaskInfo) -> (res: ConsumerSettings)
        ensures
            res@ == consumer_of(self@.table, task@),
    {
        let subscription_type = match self.table.subscription_type {
            Some(SubscriptionType::Failover) => SubType::Failover,
            Some(SubscriptionType::Shared) => SubType::Shared,
            Some(SubscriptionType::KeyShared) => SubType::KeyShared,
            _ => SubType::Exclusive,
        };
        ConsumerSettings {
            topic: self.table.topic.clone(),
            subscription: self.table.subscription.clone(),
            subscription_type,
            consumer_name: task.job_id.clone().concat("-").concat(task.operator_id.as_str()),
        }
    }

    /// Runs the source, step by step: takes what it waits for and what happened, and says what it
    /// waits for then and what to do next.
    pub fn run<M, C, L, E>(
        &self,
        task: &TaskInfo,
        phase: Phase<M>,
        event: Event<M, C, L, E>,
    ) -> (res: (Phase<M>, Action<M, C, L, E>))
        requires
            awaited(phase, event@),
        ensures
            (Step { phase: res.0, action: res.1@ }) == run_step(self@, task@, phase, event@),
    {
        match event {
            Event::Begun => (
                Phase::Initializing,
                Action::InitializeDeserializer {
                    format: self.format.clone(),
                    framing: clone_opt_json(&self.framing),
                    bad_data: clone_opt_json(&self.bad_data),
                    metadata_fields: clone_json_list(&self.metadata_fields),
                },
            ),
            Event::Initialized => (
                Phase::Connecting,
                Action::Connect { config: self.config.clone() },
            ),
            Event::Connected(Ok(_)) => (
                Phase::Subscribing,
                Action::Subscribe(self.consumer_settings(task)),
            ),
            Event::Connected(Err(error)) => fail(
                "failed to connect to Pulsar: ".to_string().concat(error.context.as_str()),
            ),
            Event::Subscribed(Ok(_)) => wait(),
            Event::Subscribed(Err(cause)) => fail(
                "failed to subscribe to Pulsar topic '".to_string().concat(
                    self.table.topic.as_str(),
                ).concat("': ").concat(cause.as_str()),
            ),
            Event::Received(Received::Message { message, payload, event_time, publish_time }) => (
                Phase::Deserializing(message),
                Action::Deserialize {
                    payload,
                    timestamp: message_timestamp(event_time, publish_time),
                },
            ),
            Event::Received(Received::Failed { cause }) => fail(
                "Pulsar consumer error: ".to_string().concat(cause.as_str()),
            ),
            Event::Received(Received::Closed) => end(Ok(SourceFinishType::Graceful)),
            Event::Tick => (Phase::CheckingFlush, Action::CheckFlush),
            Event::Control(Some(ControlMessage::Checkpoint(checkpoint))) => (
                Phase::Checkpointing,
                Action::StartCheckpoint { checkpoint },
            ),
            Event::Control(Some(ControlMessage::Stop { mode })) => match mode {
                StopMode::Graceful => end(Ok(SourceFinishType::Graceful)),
                StopMode::Immediate => end(Ok(SourceFinishType::Immediate)),
            },
            Event::Control(Some(ControlMessage::LoadCompacted { compacted })) => (
                Phase::Loading,
                Action::LoadCompacted { compacted },
            ),
            Event::Control(_) => wait(),
            Event::Deserialized(Ok(_)) => match phase {
                Phase::Deserializing(message) => (
                    Phase::Acknowledging,
                    Action::Acknowledge { message },
                ),
                _ => wait(),
            },
            Event::Deserialized(Err(error)) => end(Err(RunError::Engine(error))),
            Event::Acknowledged(Ok(_)) => (Phase::CheckingFlush, Action::CheckFlush),
            Event::Acknowledged(Err(cause)) => fail(
                "failed to acknowledge Pulsar message: ".to_string().concat(cause.as_str()),
            ),
            Event::FlushDue(due) => if due {
                (Phase::Flushing, Action::Flush)
            } else {
                wait()
            },
            Event::Flushed(Ok(_)) => wait(),
            Event::Flushed(Err(error)) => end(Err(RunError::Engine(error))),
            Event::Checkpointed { stop } => if stop {
                end(Ok(SourceFinishType::Immediate))
            } else {
                wait()
            },
            Event::Loaded => wait(),
        }
    }
}

} // verus!
