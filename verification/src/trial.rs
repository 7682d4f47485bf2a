//! Trying a connection out, and listing the topics that it reaches.

use crate::config::{texts, ConfigView, PulsarConfig, TableView};
use crate::error::{connect_result, ConnectError, ConnectErrorView, Error, ErrorView};
use vstd::prelude::*;

verus! {

/// The last word on a connection that was tried.
#[derive(Debug, PartialEq, Eq)]
pub enum TestSourceMessage {
    Done { message: String },
    Fail { message: String },
}

/// The view of a `TestSourceMessage`.
#[verifier::ext_equal]
pub enum TestMessageView {
    Done { message: Seq<char> },
    Fail { message: Seq<char> },
}

impl View for TestSourceMessage {
    type V = TestMessageView;

    open spec fn view(&self) -> TestMessageView {
        match self {
            TestSourceMessage::Done { message } => TestMessageView::Done { message: message@ },
            TestSourceMessage::Fail { message } => TestMessageView::Fail { message: message@ },
        }
    }
}

/// How far the trial of a connection has come.
#[derive(Debug, PartialEq, Eq)]
pub enum TestProgress {
    /// Nothing was done yet.
    Started,
    /// A client was asked for.
    Connected(Result<(), ConnectError>),
    /// The broker was asked where the table's topic is. A failure carries its cause.
    LookedUp(Result<(), String>),
}

/// The view of a `TestProgress`.
#[verifier::ext_equal]
pub enum TestProgressView {
    Started,
    Connected(Result<(), ConnectErrorView>),
    LookedUp(Result<(), Seq<char>>),
}

impl View for TestProgress {
    type V = TestProgressView;

    open spec fn view(&self) -> TestProgressView {
        match self {
            TestProgress::Started => TestProgressView::Started,
            TestProgress::Connected(outcome) => TestProgressView::Connected(
                connect_result(*outcome),
            ),
            TestProgress::LookedUp(outcome) => TestProgressView::LookedUp(
                match outcome {
                    Ok(_) => Ok(()),
                    Err(cause) => Err(cause@),
                },
            ),
        }
    }
}

/// What the trial of a connection does next.
#[derive(Debug, PartialEq, Eq)]
pub enum TestAction {
    /// Ask for a client with this configuration.
    Connect { config: PulsarConfig },
    /// Ask the broker where a topic is.
    LookupTopic { topic: String },
    /// Report, and end.
    Report(TestSourceMessage),
}

/// The view of a `TestAction`.
#[verifier::ext_equal]
pub enum TestActionView {
    Connect { config: ConfigView },
    LookupTopic { topic: Seq<char> },
    Report(TestMessageView),
}

impl View for TestAction {
    type V = TestActionView;

    open spec fn view(&self) -> TestActionView {
        match self {
            TestAction::Connect { config } => TestActionView::Connect { config: config@ },
            TestAction::LookupTopic { topic } => TestActionView::LookupTopic { topic: topic@ },
            TestAction::Report(message) => TestActionView::Report(message@),
        }
    }
}

/// The report that no client could be had.
pub open spec fn connect_failure(error: ConnectErrorView) -> TestActionView {
    TestActionView::Report(
        TestMessageView::Fail { message: "Failed to connect to Pulsar: "@ + error.chain_text() },
    )
}

/// What the trial of a profile does next.
pub open spec fn profile_test_of(
    profile: ConfigView,
    so_far: Option<Result<(), ConnectErrorView>>,
) -> TestActionView {
    match so_far {
        None => TestActionView::Connect { config: profile },
        Some(Ok(_)) => TestActionView::Report(
            TestMessageView::Done { message: "Successfully connected to Pulsar"@ },
        ),
        Some(Err(error)) => connect_failure(error),
    }
}

/// What the trial of a table does next.
pub open spec fn test_of(
    config: ConfigView,
    table: TableView,
    so_far: TestProgressView,
) -> TestActionView {
    match so_far {
        TestProgressView::Started => TestActionView::Connect { config },
        TestProgressView::Connected(Ok(_)) => TestActionView::LookupTopic { topic: table.topic },
        TestProgressView::Connected(Err(error)) => connect_failure(error),
        TestProgressView::LookedUp(Ok(_)) => TestActionView::Report(
            TestMessageView::Done {
                message: "Successfully connected to Pulsar and resolved topic '"@ + table.topic
                    + "'"@,
            },
        ),
        TestProgressView::LookedUp(Err(cause)) => TestActionView::Report(
            TestMessageView::Fail {
                message: "Connected to Pulsar but failed to resolve topic '"@ + table.topic
                    + "': "@ + cause,
            },
        ),
    }
}

/// How far the listing of topics has come.
#[derive(Debug, PartialEq, Eq)]
pub enum AutocompleteProgress {
    /// Nothing was done yet.
    Started,
    /// A client was asked for.
    Connected(Result<(), ConnectError>),
    /// The broker was asked for the topics. A failure carries its cause.
    Listed(Result<Vec<String>, String>),
}

/// The view of an `AutocompleteProgress`.
#[verifier::ext_equal]
pub enum AutocompleteProgressView {
    Started,
    Connected(Result<(), ConnectErrorView>),
    Listed(Result<Seq<Seq<char>>, Seq<char>>),
}

impl View for AutocompleteProgress {
    type V = AutocompleteProgressView;

    open spec fn view(&self) -> AutocompleteProgressView {
        match self {
            AutocompleteProgress::Started => AutocompleteProgressView::Started,
            AutocompleteProgress::Connected(outcome) => AutocompleteProgressView::Connected(
                connect_result(*outcome),
            ),
            AutocompleteProgress::Listed(outcome) => AutocompleteProgressView::Listed(
                match outcome {
                    Ok(topics) => Ok(texts(topics@)),
                    Err(cause) => Err(cause@),
                },
            ),
        }
    }
}

/// What the listing of topics does next.
#[derive(Debug, PartialEq, Eq)]
pub enum AutocompleteAction {
    /// Ask for a client with this configuration.
    Connect { config: PulsarConfig },
    /// Ask the broker for a namespace's persistent topics.
    ListPersistentTopics { namespace: String },
    /// Hand out the values that each option may take, by the option's name, and end.
    Finish(Result<Vec<(String, Vec<String>)>, Error>),
}

/// The view of an `AutocompleteAction`.
#[verifier::ext_equal]
pub enum AutocompleteActionView {
    Connect { config: ConfigView },
    ListPersistentTopics { namespace: Seq<char> },
    Finish(Result<Seq<(Seq<char>, Seq<Seq<char>>)>, ErrorView>),
}

/// The view of the values that options may take.
pub open spec fn choices_view(choices: Seq<(String, Vec<String>)>) -> Seq<
    (Seq<char>, Seq<Seq<char>>),
> {
    choices.map_values(|choice: (String, Vec<String>)| (choice.0@, texts(choice.1@)))
}

impl View for AutocompleteAction {
    type V = AutocompleteActionView;

    open spec fn view(&self) -> AutocompleteActionView {
        match self {
            AutocompleteAction::Connect { config } => AutocompleteActionView::Connect {
                config: config@,
            },
            AutocompleteAction::ListPersistentTopics { namespace } =>
                AutocompleteActionView::ListPersistentTopics { namespace: namespace@ },
            AutocompleteAction::Finish(outcome) => AutocompleteActionView::Finish(
                match outcome {
                    Ok(choices) => Ok(choices_view(choices@)),
                    Err(error) => Err(error@),
                },
            ),
        }
    }
}

/// What the listing of topics does next. Without a namespace it ends before it asks for a client.
pub open spec fn autocomplete_of(
    profile: ConfigView,
    so_far: AutocompleteProgressView,
) -> AutocompleteActionView {
    match profile.namespace {
        None => AutocompleteActionView::Finish(Err(ErrorView::NamespaceRequired)),
        Some(namespace) => match so_far {
            AutocompleteProgressView::Started => AutocompleteActionView::Connect { config: profile },
            AutocompleteProgressView::Connected(Ok(_)) =>
                AutocompleteActionView::ListPersistentTopics { namespace },
            AutocompleteProgressView::Connected(Err(error)) => AutocompleteActionView::Finish(
                Err(ErrorView::Connect(error)),
            ),
            AutocompleteProgressView::Listed(Ok(topics)) => AutocompleteActionView::Finish(
                Ok(seq![("topic"@, topics)]),
            ),
            AutocompleteProgressView::Listed(Err(cause)) => AutocompleteActionView::Finish(
                Err(ErrorView::TopicListing { namespace, cause }),
            ),
        },
    }
}

} // verus!
