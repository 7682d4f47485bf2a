//! What a source does with each thing that happens, told by what goes into a step and what comes
//! out of it.

use crate::config::SubscriptionType;
use crate::error::ConnectError;
use crate::same::{
    config_shows_all_it_holds, lemma_json_lists, same_config, same_json_list, same_opt_json,
};
use crate::source::{
    message_timestamp, Action, ConsumerSettings, ControlMessage, ErrorDomain, Event, Phase,
    PulsarSourceFunc, Received, RetryHint, RunError, SourceFinishType, StateTable, StopMode,
    SubType, TaskInfo, FLUSH_INTERVAL_MILLIS,
};
use vstd::prelude::*;

verus! {

/// The step `res` is what running `source` in `phase` leads to when `event` happens.
pub open spec fn steps<M, C, L, E>(
    source: PulsarSourceFunc,
    task: TaskInfo,
    phase: Phase<M>,
    event: Event<M, C, L, E>,
    res: (Phase<M>, Action<M, C, L, E>),
) -> bool {
    call_ensures(PulsarSourceFunc::run::<M, C, L, E>, (&source, &task, phase, event), res)
}

/// The source goes back to waiting.
pub open spec fn is_waiting<M, C, L, E>(res: (Phase<M>, Action<M, C, L, E>)) -> bool {
    res.0 is Waiting && res.1 is Wait
}

/// The source has ended in the way given.
pub open spec fn has_finished<M, C, L, E>(
    res: (Phase<M>, Action<M, C, L, E>),
    how: SourceFinishType,
) -> bool {
    &&& res.0 is Ended
    &&& res.1 is Finish
    &&& res.1->Finish_0 is Ok
    &&& res.1->Finish_0->Ok_0 == how
}

/// The source has ended with a failure that lies outside, may be tried again after a while, and is
/// told in these words.
pub open spec fn has_failed<M, C, L, E>(
    res: (Phase<M>, Action<M, C, L, E>),
    words: Seq<char>,
) -> bool {
    &&& res.0 is Ended
    &&& res.1 is Finish
    &&& res.1->Finish_0 is Err
    &&& res.1->Finish_0->Err_0 matches RunError::Connector { domain, retry, message }
    &&& domain == ErrorDomain::External
    &&& retry == RetryHint::WithBackoff
    &&& message@ == words
}

/// The source has ended with this error of the engine.
pub open spec fn has_passed_on<M, C, L, E>(
    res: (Phase<M>, Action<M, C, L, E>),
    error: E,
) -> bool {
    &&& res.0 is Ended
    &&& res.1 is Finish
    &&& res.1->Finish_0 is Err
    &&& res.1->Finish_0->Err_0 == RunError::<E>::Engine(error)
}

/// A checkpoint that comes is started, with its own barrier, whatever the source reads. When the
/// engine has taken it, the source ends at once if the engine says so, and else waits on.
pub proof fn checkpoint_is_started<M, C, L, E>(
    source: PulsarSourceFunc,
    task: TaskInfo,
    phase: Phase<M>,
    barrier: C,
    stop: bool,
    res: (Phase<M>, Action<M, C, L, E>),
)
    ensures
        steps(source, task, phase, Event::Control(Some(ControlMessage::Checkpoint(barrier))), res)
            ==> res.0 is Checkpointing && res.1 is StartCheckpoint && res.1->checkpoint == barrier,
        steps(source, task, phase, (Event::Checkpointed { stop }), res) && stop ==> has_finished(
            res,
            SourceFinishType::Immediate,
        ),
        steps(source, task, phase, (Event::Checkpointed { stop }), res) && !stop ==> is_waiting(
            res,
        ),
{
}

/// Data that is to be loaded is handed to the engine as it came, whatever the source reads, and the
/// source waits on when the engine has loaded it.
pub proof fn compacted_data_is_loaded<M, C, L, E>(
    source: PulsarSourceFunc,
    task: TaskInfo,
    phase: Phase<M>,
    data: L,
    res: (Phase<M>, Action<M, C, L, E>),
)
    ensures
        steps(
            source,
            task,
            phase,
            Event::Control(Some((ControlMessage::LoadCompacted { compacted: data }))),
            res,
        ) ==> res.0 is Loading && res.1 is LoadCompacted && res.1->compacted == data,
        steps(source, task, phase, Event::Loaded, res) ==> is_waiting(res),
{
}

/// A stop ends the source in its own mode, and so does the end of the messages, gracefully. What
/// asks for nothing, and an engine that has closed its end, leave the source waiting.
pub proof fn stop_is_obeyed<M, C, L, E>(
    source: PulsarSourceFunc,
    task: TaskInfo,
    phase: Phase<M>,
    mode: StopMode,
    res: (Phase<M>, Action<M, C, L, E>),
)
    ensures
        steps(source, task, phase, Event::Control(Some((ControlMessage::Stop { mode }))), res)
            && mode == StopMode::Graceful ==> has_finished(res, SourceFinishType::Graceful),
        steps(source, task, phase, Event::Control(Some((ControlMessage::Stop { mode }))), res)
            && mode == StopMode::Immediate ==> has_finished(res, SourceFinishType::Immediate),
        steps(source, task, phase, Event::Received(Received::Closed), res) ==> has_finished(
            res,
            SourceFinishType::Graceful,
        ),
        steps(source, task, phase, Event::Control(Some(ControlMessage::NoOp)), res) ==> is_waiting(
            res,
        ),
        steps(source, task, phase, Event::Control(None), res) ==> is_waiting(res),
{
}

/// A message that comes is kept in hand while the engine reads its own payload, byte for byte, as
/// of the time of its event if it has one and else of its publication.
pub proof fn payload_is_read_whole<M, C, L, E>(
    source: PulsarSourceFunc,
    task: TaskInfo,
    phase: Phase<M>,
    message: M,
    payload: Vec<u8>,
    event_time: Option<u64>,
    publish_time: u64,
    res: (Phase<M>, Action<M, C, L, E>),
)
    requires
        steps(
            source,
            task,
            phase,
            Event::Received((Received::Message { message, payload, event_time, publish_time })),
            res,
        ),
    ensures
        res.0 is Deserializing,
        res.0->Deserializing_0 == message,
        res.1 is Deserialize,
        res.1->payload@ == payload@,
        event_time is Some ==> res.1->timestamp == event_time->Some_0,
        event_time is None ==> res.1->timestamp == publish_time,
{
}

/// A message is acknowledged when the engine has read it, and only the message in hand is. A
/// message that the engine could not read is not: the source ends with the engine's own error.
pub proof fn message_in_hand_is_acknowledged<M, C, L, E>(
    source: PulsarSourceFunc,
    task: TaskInfo,
    message: M,
    outcome: Result<(), E>,
    res: (Phase<M>, Action<M, C, L, E>),
)
    requires
        steps(source, task, Phase::Deserializing(message), Event::Deserialized(outcome), res),
    ensures
        outcome is Ok ==> res.0 is Acknowledging && res.1 is Acknowledge && res.1->message
            == message,
        outcome is Err ==> has_passed_on(res, outcome->Err_0),
{
}

/// Whether the engine is to pass on what it has read is asked after each acknowledgement and at
/// each tick. It passes it on when that is due, and the source waits on when it has, or when it is
/// not due.
pub proof fn records_are_passed_on<M, C, L, E>(
    source: PulsarSourceFunc,
    task: TaskInfo,
    phase: Phase<M>,
    acknowledged: Result<(), String>,
    due: bool,
    flushed: Result<(), E>,
    res: (Phase<M>, Action<M, C, L, E>),
)
    ensures
        steps(source, task, phase, Event::Tick, res) ==> res.0 is CheckingFlush && res.1
            is CheckFlush,
        steps(source, task, phase, Event::Acknowledged(acknowledged), res) && acknowledged is Ok
            ==> res.0 is CheckingFlush && res.1 is CheckFlush,
        steps(source, task, phase, Event::FlushDue(due), res) && due ==> res.0 is Flushing && res.1
            is Flush,
        steps(source, task, phase, Event::FlushDue(due), res) && !due ==> is_waiting(res),
        steps(source, task, phase, Event::Flushed(flushed), res) && flushed is Ok ==> is_waiting(
            res,
        ),
        steps(source, task, phase, Event::Flushed(flushed), res) && flushed is Err
            ==> has_passed_on(res, flushed->Err_0),
{
}

/// Whatever fails at the broker ends the source, and is told with its own cause: of a client what
/// was being done, of a subscription also the topic.
pub proof fn broker_failures_are_told<M, C, L, E>(
    source: PulsarSourceFunc,
    task: TaskInfo,
    phase: Phase<M>,
    error: ConnectError,
    cause: String,
    res: (Phase<M>, Action<M, C, L, E>),
)
    ensures
        steps(source, task, phase, Event::Connected(Err(error)), res) ==> has_failed(
            res,
            "failed to connect to Pulsar: "@ + error.context@,
        ),
        steps(source, task, phase, Event::Subscribed(Err(cause)), res) ==> has_failed(
            res,
            "failed to subscribe to Pulsar topic '"@ + source.table.topic@ + "': "@ + cause@,
        ),
        steps(source, task, phase, Event::Received((Received::Failed { cause })), res)
            ==> has_failed(res, "Pulsar consumer error: "@ + cause@),
        steps(source, task, phase, Event::Acknowledged(Err(cause)), res) ==> has_failed(
            res,
            "failed to acknowledge Pulsar message: "@ + cause@,
        ),
{
}

/// A source begins by getting the engine ready for its own format, framing, way with bad data and
/// metadata columns, and then sets up a client with its own configuration.
pub proof fn source_begins_with_its_own_settings<M, C, L, E>(
    source: PulsarSourceFunc,
    task: TaskInfo,
    phase: Phase<M>,
    res: (Phase<M>, Action<M, C, L, E>),
)
    ensures
        steps(source, task, phase, Event::Begun, res) ==> res.0 is Initializing && gets_ready_for(
            res.1,
            source,
        ),
        steps(source, task, phase, Event::Initialized, res) ==> res.0 is Connecting && res.1
            is Connect && same_config(res.1->config, source.config),
{
    if steps(source, task, phase, Event::Begun, res) {
        let got = res.1->metadata_fields;
        lemma_json_lists(got@, source.metadata_fields@);
    }
    if steps(source, task, phase, Event::Initialized, res) {
        config_shows_all_it_holds(res.1->config, source.config);
    }
}

/// The action has the engine get ready for the messages of `source`.
pub open spec fn gets_ready_for<M, C, L, E>(
    action: Action<M, C, L, E>,
    source: PulsarSourceFunc,
) -> bool {
    match action {
        Action::InitializeDeserializer { format, framing, bad_data, metadata_fields } => {
            &&& format.text@ == source.format.text@
            &&& same_opt_json(framing, source.framing)
            &&& same_opt_json(bad_data, source.bad_data)
            &&& same_json_list(metadata_fields@, source.metadata_fields@)
        },
        _ => false,
    }
}

/// Once connected, a source subscribes to its table's topic, under its table's subscription, with
/// the type that the table asks for, or exclusively, and under the name of its job and its
/// operator. Once subscribed, it waits.
pub proof fn subscription_is_that_of_the_table<M, C, L, E>(
    source: PulsarSourceFunc,
    task: TaskInfo,
    phase: Phase<M>,
    done: Result<(), ConnectError>,
    subscribed: Result<(), String>,
    res: (Phase<M>, Action<M, C, L, E>),
)
    ensures
        steps(source, task, phase, Event::Connected(done), res) && done is Ok ==> res.0
            is Subscribing && res.1 is Subscribe && subscribes(res.1->Subscribe_0, source, task),
        steps(source, task, phase, Event::Subscribed(subscribed), res) && subscribed is Ok
            ==> is_waiting(res),
{
}

/// The settings are those of a consumer of the table of `source`, in `task`.
pub open spec fn subscribes(
    settings: ConsumerSettings,
    source: PulsarSourceFunc,
    task: TaskInfo,
) -> bool {
    let kind = source.table.subscription_type;
    &&& settings.topic@ == source.table.topic@
    &&& settings.subscription@ == source.table.subscription@
    &&& settings.consumer_name@ == task.job_id@ + "-"@ + task.operator_id@
    &&& settings.subscription_type == SubType::Failover <==> kind == Some(
        SubscriptionType::Failover,
    )
    &&& settings.subscription_type == SubType::Shared <==> kind == Some(SubscriptionType::Shared)
    &&& settings.subscription_type == SubType::KeyShared <==> kind == Some(
        SubscriptionType::KeyShared,
    )
    &&& settings.subscription_type == SubType::Exclusive <==> (kind is None || kind == Some(
        SubscriptionType::Exclusive,
    ))
}

/// The event makes no use of what the source is or where it runs.
pub open spec fn needs_no_settings<M, C, L, E>(event: Event<M, C, L, E>) -> bool {
    match event {
        Event::Begun => false,
        Event::Initialized => false,
        Event::Connected(outcome) => outcome is Err,
        Event::Subscribed(outcome) => outcome is Ok,
        _ => true,
    }
}

/// Once it is set up, a source runs like any other: two sources, in whatever tasks, do the same
/// when the same happens to them in the same phase.
pub proof fn running_does_not_depend_on_the_source<M, C, L, E>(
    a: PulsarSourceFunc,
    b: PulsarSourceFunc,
    in_a: TaskInfo,
    in_b: TaskInfo,
    phase: Phase<M>,
    event: Event<M, C, L, E>,
    res_a: (Phase<M>, Action<M, C, L, E>),
    res_b: (Phase<M>, Action<M, C, L, E>),
)
    requires
        steps(a, in_a, phase, event, res_a),
        steps(b, in_b, phase, event, res_b),
        needs_no_settings(event),
    ensures
        res_a.0 == res_b.0,
        res_a.1@ == res_b.1@,
{
}

/// The event is one that the action asks for. Of what the engine may say, a commit is for no
/// action.
pub open spec fn answers<M, C, L, E>(event: Event<M, C, L, E>, action: Action<M, C, L, E>) -> bool {
    match action {
        Action::InitializeDeserializer { format, framing, bad_data, metadata_fields } => event
            is Initialized,
        Action::Connect { config } => event is Connected,
        Action::Subscribe(settings) => event is Subscribed,
        Action::Wait => event is Received || event is Tick || (event is Control && event
            != Event::<M, C, L, E>::Control(Some(ControlMessage::Commit))),
        Action::Deserialize { payload, timestamp } => event is Deserialized,
        Action::Acknowledge { message } => event is Acknowledged,
        Action::CheckFlush => event is FlushDue,
        Action::Flush => event is Flushed,
        Action::StartCheckpoint { checkpoint } => event is Checkpointed,
        Action::LoadCompacted { compacted } => event is Loaded,
        Action::Finish(outcome) => false,
    }
}

/// A source that has not begun expects to, and nothing else. After each step it expects exactly
/// what answers the action that it took, and after its end nothing.
pub proof fn source_expects_the_answer<M, C, L, E>(
    source: PulsarSourceFunc,
    task: TaskInfo,
    phase: Phase<M>,
    event: Event<M, C, L, E>,
    res: (Phase<M>, Action<M, C, L, E>),
    next: Event<M, C, L, E>,
    expected: bool,
)
    ensures
        call_ensures(Phase::<M>::expects::<C, L, E>, (&Phase::Created, &next), expected)
            ==> expected == (next is Begun),
        call_ensures(Phase::<M>::expects::<C, L, E>, (&phase, &event), true) && steps(
            source,
            task,
            phase,
            event,
            res,
        ) && call_ensures(Phase::<M>::expects::<C, L, E>, (&res.0, &next), expected) ==> expected
            == answers(next, res.1),
{
}

/// A message stands for the time of its event if it has one, and else for that of its publication.
pub proof fn message_time(event_time: Option<u64>, publish_time: u64, res: u64)
    requires
        call_ensures(message_timestamp, (event_time, publish_time), res),
    ensures
        event_time is Some ==> res == event_time->Some_0,
        event_time is None ==> res == publish_time,
{
}

/// A source is named after its topic, keeps its state in one table, and looks twenty times a second
/// whether something is to be passed on.
pub proof fn source_is_named_after_its_topic(
    source: PulsarSourceFunc,
    name: String,
    table: StateTable,
)
    ensures
        call_ensures(PulsarSourceFunc::name, (&source,), name) ==> name@ == "pulsar-source-"@
            + source.table.topic@,
        call_ensures(PulsarSourceFunc::tables, (&source,), table) ==> table.name@ == "p"@
            && table.description@ == "Pulsar source state"@,
        FLUSH_INTERVAL_MILLIS * 20 == 1000,
{
}

} // verus!
