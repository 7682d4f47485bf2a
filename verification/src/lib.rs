//! The decisions of an Apache Pulsar source connector for a streaming engine.
//!
//! The library reads a table's options into a configuration, makes the connection that they declare,
//! works out how a Pulsar client and a consumer are set up, and decides what the source does with
//! each thing that happens while it runs. It does no input or output: whoever drives it puts
//! environment variables in, reads files and talks to the broker, and hands the outcome of each such
//! step back.

pub mod config;
pub mod connect;
pub mod connection;
pub mod connector;
pub mod error;
pub mod laws;
pub mod laws_connect;
pub mod laws_connector;
pub mod laws_declaration;
pub mod laws_options;
pub mod laws_source;
pub mod options;
pub mod reading;
pub mod same;
pub mod schema;
pub mod source;
pub mod trial;

pub use config::{
    PulsarConfig, PulsarConfigAuthentication, PulsarTable, SubscriptionType, Tls, VarStr,
};
pub use connect::{
    connect, ClientAuthentication, ClientSettings, ConnectAction, ConnectEvent, ConnectProgress,
};
pub use connection::{
    connection_with_text, source_description, Connection, ConnectionType, OperatorConfig,
};
pub use connector::{Assets, ConnectorMetadata, PulsarConnector};
pub use error::{ConnectError, Error};
pub use options::{ConnectorOptions, OptionValue};
pub use schema::{ConnectionSchema, Json};
pub use source::{
    message_timestamp, Action, ConsumerSettings, ControlMessage, ErrorDomain, Event, Phase,
    PulsarSourceFunc, Received, RetryHint, RunError, SourceFinishType, StateTable, StopMode,
    SubType, TaskInfo, FLUSH_INTERVAL_MILLIS,
};
pub use trial::{
    AutocompleteAction, AutocompleteProgress, TestAction, TestProgress, TestSourceMessage,
};
