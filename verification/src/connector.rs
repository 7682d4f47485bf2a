//! The connector: what it is called, how options become a connection, and what it reports.

use crate::config::{
    opt_text, texts, ConfigView, PulsarConfig, PulsarConfigAuthentication, PulsarTable,
    SubscriptionType, TableView, Tls, VarStr,
};
use crate::connection::{
    connection_made, connection_result, connection_with_text, opt_schema, show_object, Connection,
    ConnectionType, ConnectionView, OperatorConfig, OperatorView,
};
use crate::error::{connect_result, ConnectError, Error, ErrorView};
use crate::options::{text_of, ConnectorOptions, Options};
use crate::reading::{
    authentication_value, connection_of, connection_pulls, kind_of, left_by_connection,
    left_by_table, lemma_connection_names, lemma_pull, lemma_table_names, table_of, table_pulls,
};
use crate::schema::{ConnectionSchema, SchemaView};
use crate::source::{PulsarSourceFunc, SourceView};
use crate::trial::{
    autocomplete_of, choices_view, connect_failure, profile_test_of, test_of, AutocompleteAction,
    AutocompleteProgress, TestAction, TestProgress, TestSourceMessage,
};
use vstd::prelude::*;
use vstd::string::StringExecFns;

verus! {

/// The files that a connector shows to its users: a picture, and the schemas of the two
/// configurations that it takes.
#[derive(Debug, PartialEq, Eq)]
pub struct Assets {
    pub icon: String,
    pub config_schema: String,
    pub table_schema: String,
}

/// What a connector tells of itself.
#[derive(Debug, PartialEq, Eq)]
pub struct ConnectorMetadata {
    pub id: String,
    pub name: String,
    pub icon: String,
    pub description: String,
    pub enabled: bool,
    pub source: bool,
    pub sink: bool,
    pub testing: bool,
    pub hidden: bool,
    pub custom_schemas: bool,
    pub connection_config: Option<String>,
    pub table_config: String,
}

/// The configuration that a profile holds, or why what it holds is none.
pub open spec fn opt_profile(profile: Option<Result<PulsarConfig, String>>) -> Option<
    Result<ConfigView, Seq<char>>,
> {
    match profile {
        None => None,
        Some(Ok(config)) => Some(Ok(config@)),
        Some(Err(reason)) => Some(Err(reason@)),
    }
}

/// The configuration that is taken: that of the profile where there is one, else that of the
/// options.
pub open spec fn config_taken(
    options: Options,
    profile: Option<Result<ConfigView, Seq<char>>>,
) -> Result<ConfigView, ErrorView> {
    match profile {
        Some(Ok(config)) => Ok(config),
        Some(Err(reason)) => Err(ErrorView::InvalidProfile { reason }),
        None => connection_of(options),
    }
}

/// The options that are left when the configuration was taken.
pub open spec fn left_by_config(
    options: Options,
    profile: Option<Result<ConfigView, Seq<char>>>,
) -> Options {
    match profile {
        Some(_) => options,
        None => left_by_connection(options),
    }
}

/// The connection that a table's options make, or why they make none.
pub open spec fn connection_declared(
    name: Seq<char>,
    options: Options,
    schema: Option<SchemaView>,
    profile: Option<Result<ConfigView, Seq<char>>>,
) -> Result<ConnectionView, ErrorView> {
    match config_taken(options, profile) {
        Err(error) => Err(error),
        Ok(config) => match table_of(left_by_config(options, profile)) {
            Err(error) => Err(error),
            Ok(table) => connection_made(None, name, config, table, schema),
        },
    }
}

/// The options that are left when a connection was declared by them. The table's are asked for only
/// where there is a configuration.
pub open spec fn left_by_declaration(
    options: Options,
    profile: Option<Result<ConfigView, Seq<char>>>,
) -> Options {
    let left = left_by_config(options, profile);
    match config_taken(options, profile) {
        Ok(_) => left_by_table(left),
        Err(_) => left,
    }
}

/// The source that works a connection, or why there is none.
pub open spec fn source_of(
    profile: ConfigView,
    table: TableView,
    config: OperatorView,
) -> Result<SourceView, ErrorView> {
    match config.format {
        None => Err(ErrorView::FormatRequired),
        Some(format) => Ok(
            SourceView {
                config: profile,
                table,
                format,
                framing: config.framing,
                bad_data: config.bad_data,
                metadata_fields: config.metadata_fields,
            },
        ),
    }
}

/// The view of a source that was asked for.
pub open spec fn source_result(res: Result<PulsarSourceFunc, Error>) -> Result<
    SourceView,
    ErrorView,
> {
    match res {
        Ok(source) => Ok(source@),
        Err(error) => Err(error@),
    }
}

/// The view of a configuration that was asked for.
pub open spec fn config_result(res: Result<PulsarConfig, Error>) -> Result<ConfigView, ErrorView> {
    match res {
        Ok(config) => Ok(config@),
        Err(error) => Err(error@),
    }
}

/// The view of a table that was asked for.
pub open spec fn table_result(res: Result<PulsarTable, Error>) -> Result<TableView, ErrorView> {
    match res {
        Ok(table) => Ok(table@),
        Err(error) => Err(error@),
    }
}

/// The Pulsar connector.
pub struct PulsarConnector;

impl PulsarConnector {
    /// Reads a connection's configuration from a table's options.
    pub fn connection_from_options(options: &mut ConnectorOptions) -> (res: Result<
        PulsarConfig,
        Error,
    >)
        requires
            old(options).wf(),
        ensures
            final(options).wf(),
            config_result(res) == connection_of(old(options)@),
            final(options)@ == left_by_connection(old(options)@),
    {
        let ghost start = options@;
        let ghost pulls = connection_pulls(kind_of(start));
        proof {
            lemma_connection_names();
            lemma_pull(options@, pulls, 0);
        }
        let service_url = match options.pull_str("serviceUrl") {
            Ok(text) => text,
            Err(error) => return Err(error),
        };
        proof {
            lemma_pull(options@, pulls, 1);
        }
        let namespace = match options.pull_opt_str("namespace") {
            Ok(text) => text,
            Err(error) => return Err(error),
        };
        proof {
            lemma_pull(options@, pulls, 2);
        }
        let given = match options.pull_opt_str("authentication.type") {
            Ok(text) => text,
            Err(error) => return Err(error),
        };
        assert(opt_text(given) == text_of(start, "authentication.type"@)->Ok_0);
        let ghost at: int = 3;
        let authentication = match given {
            None => PulsarConfigAuthentication::Anonymous,
            Some(given) => if given == "Token".to_string() || given == "token".to_string() {
                proof {
                    lemma_pull(options@, pulls, 3);
                    at = 4;
                }
                let token = match options.pull_str("authentication.token") {
                    Ok(text) => text,
                    Err(error) => return Err(error),
                };
                PulsarConfigAuthentication::Token { token: VarStr::new(token) }
            } else if given == "Basic".to_string() || given == "basic".to_string() {
                proof {
                    lemma_pull(options@, pulls, 3);
                    at = 5;
                }
                let username = match options.pull_str("authentication.username") {
                    Ok(text) => text,
                    Err(error) => return Err(error),
                };
                proof {
                    lemma_pull(options@, pulls, 4);
                }
                let password = match options.pull_str("authentication.password") {
                    Ok(text) => text,
                    Err(error) => return Err(error),
                };
                PulsarConfigAuthentication::Basic {
                    username: VarStr::new(username),
                    password: VarStr::new(password),
                }
            } else if given == "OAuth2".to_string() || given == "oauth2".to_string() {
                proof {
                    lemma_pull(options@, pulls, 3);
                    at = 7;
                }
                let issuer_url = match options.pull_str("authentication.issuerUrl") {
                    Ok(text) => text,
                    Err(error) => return Err(error),
                };
                proof {
                    lemma_pull(options@, pulls, 4);
                }
                let credentials_url = match options.pull_str("authentication.credentialsUrl") {
                    Ok(text) => text,
                    Err(error) => return Err(error),
                };
                proof {
                    lemma_pull(options@, pulls, 5);
                }
                let audience = match options.pull_str("authentication.audience") {
                    Ok(text) => text,
                    Err(error) => return Err(error),
                };
                proof {
                    lemma_pull(options@, pulls, 6);
                }
                let scope = match options.pull_opt_str("authentication.scope") {
                    Ok(Some(text)) => Some(VarStr::new(text)),
                    Ok(None) => None,
                    Err(error) => return Err(error),
                };
                PulsarConfigAuthentication::OAuth2 {
                    issuer_url,
                    credentials_url: VarStr::new(credentials_url),
                    audience: VarStr::new(audience),
                    scope,
                }
            } else if given == "None".to_string() || given == "none".to_string() {
                PulsarConfigAuthentication::Anonymous
            } else {
                return Err(Error::UnsupportedAuthentication { given });
            },
        };
        assert(authentication@ == authentication_value(start));

        proof {
            lemma_pull(options@, pulls, at);
        }
        let certificate_chain_file = match options.pull_opt_str("tls.certificateChainFile") {
            Ok(Some(text)) => Some(VarStr::new(text)),
            Ok(None) => None,
            Err(error) => return Err(error),
        };
        proof {
            lemma_pull(options@, pulls, at + 1);
        }
        let allow_insecure_connection = match options.pull_opt_bool("tls.allowInsecureConnection") {
            Ok(flag) => flag,
            Err(error) => return Err(error),
        };
        proof {
            lemma_pull(options@, pulls, at + 2);
        }
        let tls_hostname_verification_enabled = match options.pull_opt_bool(
            "tls.tlsHostnameVerificationEnabled",
        ) {
            Ok(flag) => flag,
            Err(error) => return Err(error),
        };
        let tls = if certificate_chain_file.is_some() || allow_insecure_connection.is_some()
            || tls_hostname_verification_enabled.is_some() {
            Some(
                Tls {
                    certificate_chain_file,
                    allow_insecure_connection,
                    tls_hostname_verification_enabled,
                },
            )
        } else {
            None
        };
        Ok(PulsarConfig { service_url, namespace, authentication, tls })
    }

    /// Reads a table from its options.
    pub fn table_from_options(options: &mut ConnectorOptions) -> (res: Result<PulsarTable, Error>)
        requires
            old(options).wf(),
        ensures
            final(options).wf(),
            table_result(res) == table_of(old(options)@),
            final(options)@ == left_by_table(old(options)@),
    {
        proof {
            lemma_table_names();
            lemma_pull(options@, table_pulls(), 0);
        }
        let topic = match options.pull_str("topic") {
            Ok(text) => text,
            Err(error) => return Err(error),
        };
        proof {
            lemma_pull(options@, table_pulls(), 1);
        }
        let subscription = match options.pull_str("subscription") {
            Ok(text) => text,
            Err(error) => return Err(error),
        };
        proof {
            lemma_pull(options@, table_pulls(), 2);
        }
        let subscription_type = match options.pull_opt_str("subscriptionType") {
            Ok(Some(text)) => Some(SubscriptionType::from_name(&text)),
            Ok(None) => None,
            Err(error) => return Err(error),
        };
        Ok(PulsarTable { topic, subscription, subscription_type })
    }

    /// The name of the connector.
    pub fn name(&self) -> (res: &'static str)
        ensures
            res@ == "pulsar"@,
    {
        "pulsar"
    }

    /// What the connector tells of itself.
    pub fn metadata(&self, assets: Assets) -> (res: ConnectorMetadata)
        ensures
            res.id@ == "pulsar"@,
            res.name@ == "Pulsar"@,
            res.icon@ == assets.icon@,
            res.description@ == "Read from an Apache Pulsar topic"@,
            res.enabled,
            res.source,
            !res.sink,
            res.testing,
            !res.hidden,
            res.custom_schemas,
            opt_text(res.connection_config) == Some(assets.config_schema@),
            res.table_config@ == assets.table_schema@,
    {
        ConnectorMetadata {
            id: "pulsar".to_string(),
            name: "Pulsar".to_string(),
            icon: assets.icon,
            description: "Read from an Apache Pulsar topic".to_string(),
            enabled: true,
            source: true,
            sink: false,
            testing: true,
            hidden: false,
            custom_schemas: true,
            connection_config: Some(assets.config_schema),
            table_config: assets.table_schema,
        }
    }

    /// Which way data goes: every table is a source.
    pub fn table_type(&self, _profile: &PulsarConfig, _table: &PulsarTable) -> (res: ConnectionType)
        ensures
            res == ConnectionType::Source,
    {
        ConnectionType::Source
    }

    /// What the trial of a profile does next, once a client was asked for or before.
    pub fn test_profile(
        &self,
        profile: &PulsarConfig,
        so_far: Option<Result<(), ConnectError>>,
    ) -> (res: TestAction)
        ensures
            res@ == profile_test_of(
                profile@,
                match so_far {
                    None => None,
                    Some(outcome) => Some(connect_result(outcome)),
                },
            ),
    {
        match so_far {
            None => TestAction::Connect { config: profile.clone() },
            Some(Ok(_)) => TestAction::Report(
                TestSourceMessage::Done {
                    message: "Successfully connected to Pulsar".to_string(),
                },
            ),
            Some(Err(error)) => Self::report_connect_failure(&error),
        }
    }

    /// What the trial of a table does next.
    pub fn test(
        &self,
        config: &PulsarConfig,
        table: &PulsarTable,
        so_far: TestProgress,
    ) -> (res: TestAction)
        ensures
            res@ == test_of(config@, table@, so_far@),
    {
        match so_far {
            TestProgress::Started => TestAction::Connect { config: config.clone() },
            TestProgress::Connected(Ok(_)) => TestAction::LookupTopic { topic: table.topic.clone() },
            TestProgress::Connected(Err(error)) => Self::report_connect_failure(&error),
            TestProgress::LookedUp(Ok(_)) => TestAction::Report(
                TestSourceMessage::Done {
                    message: "Successfully connected to Pulsar and resolved topic '".to_string(
                    ).concat(table.topic.as_str()).concat("'"),
                },
            ),
            TestProgress::LookedUp(Err(cause)) => TestAction::Report(
                TestSourceMessage::Fail {
                    message: "Connected to Pulsar but failed to resolve topic '".to_string().concat(
                        table.topic.as_str(),
                    ).concat("': ").concat(cause.as_str()),
                },
            ),
        }
    }

    fn report_connect_failure(error: &ConnectError) -> (res: TestAction)
        ensures
            res@ == connect_failure(error@),
    {
        TestAction::Report(
            TestSourceMessage::Fail {
                message: "Failed to connect to Pulsar: ".to_string().concat(
                    error.chain().as_str(),
                ),
            },
        )
    }

    /// What the listing of the topics that a table may name does next.
    pub fn get_autocomplete(&self, profile: &PulsarConfig, so_far: AutocompleteProgress) -> (res:
        AutocompleteAction)
        ensures
            res@ == autocomplete_of(profile@, so_far@),
    {
        let namespace = match &profile.namespace {
            Some(namespace) => namespace.clone(),
            None => return AutocompleteAction::Finish(Err(Error::NamespaceRequired)),
        };
        match so_far {
            AutocompleteProgress::Started => AutocompleteAction::Connect {
                config: profile.clone(),
            },
            AutocompleteProgress::Connected(Ok(_)) => AutocompleteAction::ListPersistentTopics {
                namespace,
            },
            AutocompleteProgress::Connected(Err(error)) => AutocompleteAction::Finish(
                Err(Error::Connect(error)),
            ),
            AutocompleteProgress::Listed(Ok(topics)) => {
                let mut choices: Vec<(String, Vec<String>)> = Vec::new();
                let ghost listed = texts(topics@);
                choices.push(("topic".to_string(), topics));
                proof {
                    assert(choices_view(choices@) =~= seq![("topic"@, listed)]);
                }
                AutocompleteAction::Finish(Ok(choices))
            },
            AutocompleteProgress::Listed(Err(cause)) => AutocompleteAction::Finish(
                Err(Error::TopicListing { namespace, cause }),
            ),
        }
    }

    /// Makes a connection of a configuration, a table and a schema.
    pub fn from_config(
        &self,
        id: Option<i64>,
        name: &str,
        config: PulsarConfig,
        table: PulsarTable,
        schema: Option<&ConnectionSchema>,
    ) -> (res: Result<Connection, Error>)
        ensures
            connection_result(res) == connection_made(
                id,
                name@,
                config@,
                table@,
                opt_schema(schema),
            ),
    {
        let shown = show_object(table.fields());
        connection_with_text(id, name, config, table, schema, shown.as_str())
    }

    /// Makes a connection of a table's options. A profile, where there is one, comes with the
    /// configuration that it holds, or with the reason why what it holds is none.
    pub fn from_options(
        &self,
        name: &str,
        options: &mut ConnectorOptions,
        schema: Option<&ConnectionSchema>,
        profile: Option<Result<PulsarConfig, String>>,
    ) -> (res: Result<Connection, Error>)
        requires
            old(options).wf(),
        ensures
            final(options).wf(),
            connection_result(res) == connection_declared(
                name@,
                old(options)@,
                opt_schema(schema),
                opt_profile(profile),
            ),
            final(options)@ == left_by_declaration(old(options)@, opt_profile(profile)),
    {
        let config = match profile {
            Some(Ok(config)) => config,
            Some(Err(reason)) => return Err(Error::InvalidProfile { reason }),
            None => match Self::connection_from_options(options) {
                Ok(config) => config,
                Err(error) => return Err(error),
            },
        };
        let table = match Self::table_from_options(options) {
            Ok(table) => table,
            Err(error) => return Err(error),
        };
        self.from_config(None, name, config, table, schema)
    }

    /// Makes the source that works a connection.
    pub fn make_operator(
        &self,
        profile: PulsarConfig,
        table: PulsarTable,
        config: OperatorConfig,
    ) -> (res: Result<PulsarSourceFunc, Error>)
        ensures
            source_result(res) == source_of(profile@, table@, config@),
    {
        let format = match config.format {
            Some(format) => format,
            None => return Err(Error::FormatRequired),
        };
        Ok(
            PulsarSourceFunc {
                config: profile,
                table,
                format,
                framing: config.framing,
                bad_data: config.bad_data,
                metadata_fields: config.metadata_fields,
            },
        )
    }
}

} // verus!
