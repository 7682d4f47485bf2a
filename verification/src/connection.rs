//! A connection, and what it is made of.

use crate::config::{fields_view, ConfigView, PulsarConfig, PulsarTable, TableView};
use crate::connector::PulsarConnector;
use crate::error::{Error, ErrorView};
use crate::schema::{
    clone_json_list, clone_opt_json, json_list, opt_json, ConnectionSchema, Json, SchemaView,
};
use vstd::prelude::*;
use vstd::string::StringExecFns;

verus! {

/// Which way data goes through a connection.
#[derive(Clone, Copy, Debug, PartialEq, Eq, Structural)]
pub enum ConnectionType {
    Source,
    Sink,
    Lookup,
}

/// All that an operator has to know to work a connection.
#[derive(Debug, PartialEq, Eq)]
pub struct OperatorConfig {
    pub connection: PulsarConfig,
    pub table: PulsarTable,
    pub rate_limit: Option<Json>,
    pub format: Option<Json>,
    pub bad_data: Option<Json>,
    pub framing: Option<Json>,
    pub metadata_fields: Vec<Json>,
}

/// The view of an `OperatorConfig`.
#[verifier::ext_equal]
pub struct OperatorView {
    pub connection: ConfigView,
    pub table: TableView,
    pub rate_limit: Option<Seq<char>>,
    pub format: Option<Seq<char>>,
    pub bad_data: Option<Seq<char>>,
    pub framing: Option<Seq<char>>,
    pub metadata_fields: Seq<Seq<char>>,
}

impl View for OperatorConfig {
    type V = OperatorView;

    open spec fn view(&self) -> OperatorView {
        OperatorView {
            connection: self.connection@,
            table: self.table@,
            rate_limit: opt_json(self.rate_limit),
            format: opt_json(self.format),
            bad_data: opt_json(self.bad_data),
            framing: opt_json(self.framing),
            metadata_fields: json_list(self.metadata_fields@),
        }
    }
}

/// A connection, as the engine keeps it.
#[derive(Debug, PartialEq, Eq)]
pub struct Connection {
    pub id: Option<i64>,
    pub connector: String,
    pub name: String,
    pub connection_type: ConnectionType,
    pub schema: ConnectionSchema,
    pub config: OperatorConfig,
    pub description: String,
}

/// The view of a `Connection`.
#[verifier::ext_equal]
pub struct ConnectionView {
    pub id: Option<i64>,
    pub connector: Seq<char>,
    pub name: Seq<char>,
    pub connection_type: ConnectionType,
    pub schema: SchemaView,
    pub config: OperatorView,
    pub description: Seq<char>,
}

impl View for Connection {
    type V = ConnectionView;

    open spec fn view(&self) -> ConnectionView {
        ConnectionView {
            id: self.id,
            connector: self.connector@,
            name: self.name@,
            connection_type: self.connection_type,
            schema: self.schema@,
            config: self.config@,
            description: self.description@,
        }
    }
}

/// How `serde_json` shows, for debugging, the object that has these members, each a string.
pub uninterp spec fn object_debug(fields: Seq<(Seq<char>, Seq<char>)>) -> Seq<char>;

/// Shows an object for debugging. The object is made of its members by the `FromIterator` of
/// `serde_json::Map`, each member by `serde_json::Value::String`, and shown by the `Debug` of
/// `serde_json::Value`. Of the text nothing is claimed but that it depends on the members alone.
#[verifier::external_body]
pub(crate) fn show_object(fields: Vec<(String, String)>) -> (res: String)
    ensures
        res@ == object_debug(fields_view(fields@)),
{
    let object: serde_json::Map<String, serde_json::Value> = fields.into_iter().map(
        |field| (field.0, serde_json::Value::String(field.1)),
    ).collect();
    format!("{:?}", serde_json::Value::Object(object))
}

/// The text that describes the source of a table which is shown as `table`.
pub open spec fn described(table: Seq<char>) -> Seq<char> {
    "PulsarSource<"@ + table + ">"@
}

/// Describes the source of a table, given how the table's serialized form is shown.
pub fn source_description(table: &str) -> (res: String)
    ensures
        res@ == described(table@),
{
    "PulsarSource<".to_string().concat(table).concat(">")
}

/// The view of a schema that may be missing.
pub open spec fn opt_schema(schema: Option<&ConnectionSchema>) -> Option<SchemaView> {
    match schema {
        Some(schema) => Some(schema@),
        None => None,
    }
}

/// The connection that a configuration, a table and a schema make, where the table's serialized
/// form is shown as `shown`, or why they make none.
pub open spec fn connection_shown_as(
    id: Option<i64>,
    name: Seq<char>,
    config: ConfigView,
    table: TableView,
    schema: Option<SchemaView>,
    shown: Seq<char>,
) -> Result<ConnectionView, ErrorView> {
    match schema {
        None => Err(ErrorView::MissingSchema),
        Some(schema) => if schema.format is None {
            Err(ErrorView::MissingFormat)
        } else {
            Ok(
                ConnectionView {
                    id,
                    connector: "pulsar"@,
                    name,
                    connection_type: ConnectionType::Source,
                    schema,
                    config: OperatorView {
                        connection: config,
                        table,
                        rate_limit: None,
                        format: schema.format,
                        bad_data: schema.bad_data,
                        framing: schema.framing,
                        metadata_fields: schema.metadata_fields,
                    },
                    description: described(shown),
                },
            )
        },
    }
}

/// The connection that a configuration, a table and a schema make, or why they make none.
pub open spec fn connection_made(
    id: Option<i64>,
    name: Seq<char>,
    config: ConfigView,
    table: TableView,
    schema: Option<SchemaView>,
) -> Result<ConnectionView, ErrorView> {
    connection_shown_as(id, name, config, table, schema, object_debug(table.fields()))
}

/// The view of a connection that was asked for.
pub open spec fn connection_result(res: Result<Connection, Error>) -> Result<
    ConnectionView,
    ErrorView,
> {
    match res {
        Ok(connection) => Ok(connection@),
        Err(error) => Err(error@),
    }
}

/// Makes a connection, given how the table's serialized form is shown.
pub fn connection_with_text(
    id: Option<i64>,
    name: &str,
    config: PulsarConfig,
    table: PulsarTable,
    schema: Option<&ConnectionSchema>,
    shown: &str,
) -> (res: Result<Connection, Error>)
    ensures
        connection_result(res) == connection_shown_as(
            id,
            name@,
            config@,
            table@,
            opt_schema(schema),
            shown@,
        ),
{
    let schema = match schema {
        Some(schema) => schema.clone(),
        None => return Err(Error::MissingSchema),
    };
    let format = match &schema.format {
        Some(format) => format.clone(),
        None => return Err(Error::MissingFormat),
    };
    let operator_config = OperatorConfig {
        connection: config,
        table,
        rate_limit: None,
        format: Some(format),
        bad_data: clone_opt_json(&schema.bad_data),
        framing: clone_opt_json(&schema.framing),
        metadata_fields: clone_json_list(&schema.metadata_fields),
    };
    Ok(
        Connection {
            id,
            connector: PulsarConnector.name().to_string(),
            name: name.to_string(),
            connection_type: ConnectionType::Source,
            schema,
            config: operator_config,
            description: source_description(shown),
        },
    )
}

} // verus!
