use pulsar_connector::{
    connection_with_text, source_description, Assets, AutocompleteAction, AutocompleteProgress,
    ConnectError, ConnectionSchema, ConnectionType, ConnectorOptions, Error, Json, OperatorConfig,
    OptionValue, PulsarConfig, PulsarConfigAuthentication, PulsarConnector, PulsarTable,
    SubscriptionType, TestAction, TestProgress, TestSourceMessage,
};

fn json(text: &str) -> Json {
    Json { text: text.to_string() }
}

fn config() -> PulsarConfig {
    PulsarConfig {
        service_url: "pulsar://localhost:6650".to_string(),
        namespace: Some("public/default".to_string()),
        authentication: PulsarConfigAuthentication::Anonymous,
        tls: None,
    }
}

fn table(kind: Option<SubscriptionType>) -> PulsarTable {
    PulsarTable {
        topic: "orders".to_string(),
        subscription: "my \"sub\"".to_string(),
        subscription_type: kind,
    }
}

fn schema() -> ConnectionSchema {
    ConnectionSchema {
        format: Some(json("{\"json\":{}}")),
        bad_data: Some(json("\"drop\"")),
        framing: None,
        metadata_fields: vec![json("a"), json("b")],
        definition: json("{}"),
    }
}

fn refused() -> ConnectError {
    ConnectError {
        context: "failed to connect to Pulsar".to_string(),
        cause: "refused".to_string(),
    }
}

fn options(pairs: &[(&str, &str)]) -> ConnectorOptions {
    let mut options = ConnectorOptions::new();
    for (name, value) in pairs {
        options.insert(
            name.to_string(),
            OptionValue {
                text: Ok(value.to_string()),
                flag: Err("expected a boolean".to_string()),
            },
        );
    }
    options
}

#[test]
fn connector_tells_what_it_is() {
    assert_eq!(PulsarConnector.name(), "pulsar");
    let metadata = PulsarConnector.metadata(Assets {
        icon: "<svg/>".to_string(),
        config_schema: "{\"a\":1}".to_string(),
        table_schema: "{\"b\":2}".to_string(),
    });
    assert_eq!(metadata.id, "pulsar");
    assert_eq!(metadata.name, "Pulsar");
    assert_eq!(metadata.icon, "<svg/>");
    assert_eq!(metadata.description, "Read from an Apache Pulsar topic");
    assert!(metadata.enabled && metadata.source && metadata.testing && metadata.custom_schemas);
    assert!(!metadata.sink && !metadata.hidden);
    assert_eq!(metadata.connection_config, Some("{\"a\":1}".to_string()));
    assert_eq!(metadata.table_config, "{\"b\":2}");
    assert_eq!(
        PulsarConnector.table_type(&config(), &table(None)),
        ConnectionType::Source
    );
}

#[test]
fn connection_is_described_by_its_table() {
    let made = PulsarConnector
        .from_config(Some(7), "orders_in", config(), table(None), Some(&schema()))
        .unwrap();
    assert_eq!(
        made.description,
        "PulsarSource<Object {\"subscription\": String(\"my \\\"sub\\\"\"), \"topic\": String(\"orders\")}>"
    );
    let made = PulsarConnector
        .from_config(
            None,
            "orders_in",
            config(),
            table(Some(SubscriptionType::KeyShared)),
            Some(&schema()),
        )
        .unwrap();
    assert_eq!(
        made.description,
        "PulsarSource<Object {\"subscription\": String(\"my \\\"sub\\\"\"), \"subscriptionType\": String(\"KeyShared\"), \"topic\": String(\"orders\")}>"
    );
    assert_eq!(source_description("x"), "PulsarSource<x>");
}

#[test]
fn connection_carries_what_the_schema_says() {
    let made = PulsarConnector
        .from_config(Some(7), "orders_in", config(), table(None), Some(&schema()))
        .unwrap();
    assert_eq!(made.id, Some(7));
    assert_eq!(made.connector, "pulsar");
    assert_eq!(made.name, "orders_in");
    assert_eq!(made.connection_type, ConnectionType::Source);
    assert_eq!(made.schema, schema());
    assert_eq!(
        made.config,
        OperatorConfig {
            connection: config(),
            table: table(None),
            rate_limit: None,
            format: schema().format,
            bad_data: schema().bad_data,
            framing: None,
            metadata_fields: vec![json("a"), json("b")],
        }
    );
    let shown = connection_with_text(None, "n", config(), table(None), Some(&schema()), "T");
    assert_eq!(shown.unwrap().description, "PulsarSource<T>");
}

#[test]
fn connection_needs_a_schema_with_a_format() {
    let error = PulsarConnector
        .from_config(None, "n", config(), table(None), None)
        .unwrap_err();
    assert_eq!(error, Error::MissingSchema);
    assert_eq!(error.message(), "no schema defined for Pulsar connection");
    let mut schema = schema();
    schema.format = None;
    let error = PulsarConnector
        .from_config(None, "n", config(), table(None), Some(&schema))
        .unwrap_err();
    assert_eq!(error, Error::MissingFormat);
    assert_eq!(error.message(), "'format' must be set for Pulsar connection");
}

#[test]
fn declaration_without_a_profile_reads_the_options() {
    let mut declared = options(&[
        ("serviceUrl", "pulsar://localhost:6650"),
        ("namespace", "public/default"),
        ("topic", "orders"),
        ("subscription", "my \"sub\""),
        ("other", "x"),
    ]);
    let made = PulsarConnector.from_options("n", &mut declared, Some(&schema()), None);
    assert_eq!(
        made,
        PulsarConnector.from_config(None, "n", config(), table(None), Some(&schema()))
    );
    assert!(declared.contains("other"));
    assert!(!declared.contains("topic") && !declared.contains("serviceUrl"));
}

#[test]
fn profile_stands_for_the_connection_options() {
    let mut declared = options(&[
        ("serviceUrl", "pulsar://elsewhere:6650"),
        ("topic", "orders"),
        ("subscription", "my \"sub\""),
    ]);
    let made = PulsarConnector.from_options(
        "n",
        &mut declared,
        Some(&schema()),
        Some(Ok(config())),
    );
    assert_eq!(made.unwrap().config.connection, config());
    assert!(declared.contains("serviceUrl"));
    assert!(!declared.contains("topic"));
}

#[test]
fn profile_that_is_none_is_refused_before_the_options_are_read() {
    let mut declared = options(&[("topic", "orders"), ("subscription", "s")]);
    let error = PulsarConnector
        .from_options(
            "n",
            &mut declared,
            Some(&schema()),
            Some(Err("missing field `serviceUrl`".to_string())),
        )
        .unwrap_err();
    assert_eq!(
        error,
        Error::InvalidProfile { reason: "missing field `serviceUrl`".to_string() }
    );
    assert_eq!(error.message(), "missing field `serviceUrl`");
    assert!(declared.contains("topic"));
}

#[test]
fn declaration_without_a_table_is_refused() {
    let mut declared = options(&[("serviceUrl", "u")]);
    let error = PulsarConnector
        .from_options("n", &mut declared, Some(&schema()), None)
        .unwrap_err();
    assert_eq!(error, Error::MissingOption { name: "topic".to_string() });
    assert_eq!(error.message(), "required option 'topic' is not set");
}

#[test]
fn connection_that_was_made_has_a_source() {
    let made = PulsarConnector
        .from_config(None, "n", config(), table(None), Some(&schema()))
        .unwrap();
    let source = PulsarConnector
        .make_operator(config(), table(None), made.config)
        .unwrap();
    assert_eq!(source.config, config());
    assert_eq!(source.table, table(None));
    assert_eq!(Some(source.format), schema().format);
    assert_eq!(source.bad_data, schema().bad_data);
    assert_eq!(source.framing, None);
    assert_eq!(source.metadata_fields, vec![json("a"), json("b")]);
}

#[test]
fn source_needs_a_format() {
    let mut made = PulsarConnector
        .from_config(None, "n", config(), table(None), Some(&schema()))
        .unwrap();
    made.config.format = None;
    let error = PulsarConnector
        .make_operator(config(), table(None), made.config)
        .unwrap_err();
    assert_eq!(error, Error::FormatRequired);
    assert_eq!(error.message(), "format required for Pulsar source");
}

#[test]
fn profile_is_tried_by_connecting() {
    assert_eq!(
        PulsarConnector.test_profile(&config(), None),
        TestAction::Connect { config: config() }
    );
    assert_eq!(
        PulsarConnector.test_profile(&config(), Some(Ok(()))),
        TestAction::Report(TestSourceMessage::Done {
            message: "Successfully connected to Pulsar".to_string(),
        })
    );
    assert_eq!(
        PulsarConnector.test_profile(&config(), Some(Err(refused()))),
        TestAction::Report(TestSourceMessage::Fail {
            message: "Failed to connect to Pulsar: failed to connect to Pulsar: refused"
                .to_string(),
        })
    );
}

#[test]
fn table_is_tried_by_looking_its_topic_up() {
    let table = table(None);
    let test = |so_far| PulsarConnector.test(&config(), &table, so_far);
    assert_eq!(test(TestProgress::Started), TestAction::Connect { config: config() });
    assert_eq!(
        test(TestProgress::Connected(Ok(()))),
        TestAction::LookupTopic { topic: "orders".to_string() }
    );
    assert_eq!(
        test(TestProgress::Connected(Err(refused()))),
        TestAction::Report(TestSourceMessage::Fail {
            message: "Failed to connect to Pulsar: failed to connect to Pulsar: refused"
                .to_string(),
        })
    );
    assert_eq!(
        test(TestProgress::LookedUp(Ok(()))),
        TestAction::Report(TestSourceMessage::Done {
            message: "Successfully connected to Pulsar and resolved topic 'orders'".to_string(),
        })
    );
    assert_eq!(
        test(TestProgress::LookedUp(Err("no such topic".to_string()))),
        TestAction::Report(TestSourceMessage::Fail {
            message: "Connected to Pulsar but failed to resolve topic 'orders': no such topic"
                .to_string(),
        })
    );
}

#[test]
fn topics_are_listed_in_the_namespace() {
    let profile = config();
    let list = |so_far| PulsarConnector.get_autocomplete(&profile, so_far);
    assert_eq!(
        list(AutocompleteProgress::Started),
        AutocompleteAction::Connect { config: config() }
    );
    assert_eq!(
        list(AutocompleteProgress::Connected(Ok(()))),
        AutocompleteAction::ListPersistentTopics { namespace: "public/default".to_string() }
    );
    assert_eq!(
        list(AutocompleteProgress::Connected(Err(refused()))),
        AutocompleteAction::Finish(Err(Error::Connect(refused())))
    );
    assert_eq!(Error::Connect(refused()).message(), "failed to connect to Pulsar");
    let topics = vec!["a".to_string(), "b".to_string()];
    assert_eq!(
        list(AutocompleteProgress::Listed(Ok(topics.clone()))),
        AutocompleteAction::Finish(Ok(vec![("topic".to_string(), topics)]))
    );
    let error = Error::TopicListing {
        namespace: "public/default".to_string(),
        cause: "denied".to_string(),
    };
    assert_eq!(
        error.message(),
        "failed to list Pulsar topics in namespace 'public/default': denied"
    );
    assert_eq!(
        list(AutocompleteProgress::Listed(Err("denied".to_string()))),
        AutocompleteAction::Finish(Err(error))
    );
}

#[test]
fn topics_are_not_listed_without_a_namespace() {
    let mut profile = config();
    profile.namespace = None;
    let action = PulsarConnector.get_autocomplete(&profile, AutocompleteProgress::Started);
    assert_eq!(action, AutocompleteAction::Finish(Err(Error::NamespaceRequired)));
    assert_eq!(
        Error::NamespaceRequired.message(),
        "Pulsar namespace is required to list topic options"
    );
}
