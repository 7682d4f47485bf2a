use pulsar_connector::{
    ConnectorOptions, Error, OptionValue, PulsarConfig, PulsarConfigAuthentication,
    PulsarConnector, PulsarTable, SubscriptionType, Tls, VarStr,
};

fn text(value: &str) -> OptionValue {
    OptionValue {
        text: Ok(value.to_string()),
        flag: match value {
            "true" => Ok(true),
            "false" => Ok(false),
            _ => Err("expected a boolean".to_string()),
        },
    }
}

fn number() -> OptionValue {
    OptionValue {
        text: Err("expected a string".to_string()),
        flag: Err("expected a boolean".to_string()),
    }
}

fn options(pairs: &[(&str, &str)]) -> ConnectorOptions {
    let mut options = ConnectorOptions::new();
    for (name, value) in pairs {
        options.insert(name.to_string(), text(value));
    }
    options
}

fn var(raw: &str) -> VarStr {
    VarStr::new(raw.to_string())
}

const URL: (&str, &str) = ("serviceUrl", "pulsar://localhost:6650");

fn config(authentication: PulsarConfigAuthentication) -> PulsarConfig {
    PulsarConfig {
        service_url: "pulsar://localhost:6650".to_string(),
        namespace: None,
        authentication,
        tls: None,
    }
}

fn missing(name: &str) -> Error {
    Error::MissingOption { name: name.to_string() }
}

#[test]
fn options_are_set_replaced_and_pulled_once() {
    let mut options = ConnectorOptions::new();
    assert!(!options.contains("a"));
    options.insert("a".to_string(), text("1"));
    options.insert("b".to_string(), text("true"));
    options.insert("a".to_string(), text("2"));
    assert!(options.contains("a"));
    assert_eq!(options.pull_str("a"), Ok("2".to_string()));
    assert!(!options.contains("a"));
    assert_eq!(options.pull_opt_str("a"), Ok(None));
    assert_eq!(options.pull_str("a"), Err(missing("a")));
    assert_eq!(options.pull_opt_bool("b"), Ok(Some(true)));
    assert_eq!(options.pull_opt_bool("b"), Ok(None));
}

#[test]
fn options_of_the_wrong_kind_are_refused_and_gone() {
    let mut options = ConnectorOptions::new();
    options.insert("a".to_string(), number());
    options.insert("b".to_string(), number());
    let error = Error::InvalidOption {
        name: "a".to_string(),
        reason: "expected a string".to_string(),
    };
    assert_eq!(options.pull_str("a"), Err(error));
    assert!(!options.contains("a"));
    let error = Error::InvalidOption {
        name: "b".to_string(),
        reason: "expected a boolean".to_string(),
    };
    assert_eq!(error.message(), "expected a boolean");
    assert_eq!(options.pull_opt_bool("b"), Err(error));
}

#[test]
fn connection_needs_a_service_url() {
    let mut options = options(&[("namespace", "public/default")]);
    assert_eq!(
        PulsarConnector::connection_from_options(&mut options),
        Err(missing("serviceUrl"))
    );
    assert!(options.contains("namespace"));
}

#[test]
fn connection_without_authentication() {
    for pairs in [
        vec![URL],
        vec![URL, ("authentication.type", "None")],
        vec![URL, ("authentication.type", "none")],
    ] {
        let mut options = options(&pairs);
        assert_eq!(
            PulsarConnector::connection_from_options(&mut options),
            Ok(config(PulsarConfigAuthentication::Anonymous))
        );
        assert!(!options.contains("serviceUrl"));
        assert!(!options.contains("authentication.type"));
    }
}

#[test]
fn connection_with_a_token() {
    for kind in ["Token", "token"] {
        let mut options = options(&[
            URL,
            ("authentication.type", kind),
            ("authentication.token", "{{ TOKEN }}"),
        ]);
        let token = PulsarConfigAuthentication::Token { token: var("{{ TOKEN }}") };
        assert_eq!(
            PulsarConnector::connection_from_options(&mut options),
            Ok(config(token))
        );
    }
    let mut options = options(&[URL, ("authentication.type", "token")]);
    assert_eq!(
        PulsarConnector::connection_from_options(&mut options),
        Err(missing("authentication.token"))
    );
}

#[test]
fn connection_with_a_password() {
    for kind in ["Basic", "basic"] {
        let mut options = options(&[
            URL,
            ("authentication.type", kind),
            ("authentication.username", "u"),
            ("authentication.password", "p"),
        ]);
        let basic = PulsarConfigAuthentication::Basic { username: var("u"), password: var("p") };
        assert_eq!(
            PulsarConnector::connection_from_options(&mut options),
            Ok(config(basic))
        );
    }
    let mut options = options(&[
        URL,
        ("authentication.type", "Basic"),
        ("authentication.password", "p"),
    ]);
    assert_eq!(
        PulsarConnector::connection_from_options(&mut options),
        Err(missing("authentication.username"))
    );
    assert!(options.contains("authentication.password"));
}

#[test]
fn connection_with_an_issuer() {
    for kind in ["OAuth2", "oauth2"] {
        for scope in [None, Some("read")] {
            let mut pairs = vec![
                URL,
                ("authentication.type", kind),
                ("authentication.issuerUrl", "https://issuer"),
                ("authentication.credentialsUrl", "file:///c"),
                ("authentication.audience", "aud"),
            ];
            if let Some(scope) = scope {
                pairs.push(("authentication.scope", scope));
            }
            let oauth2 = PulsarConfigAuthentication::OAuth2 {
                issuer_url: "https://issuer".to_string(),
                credentials_url: var("file:///c"),
                audience: var("aud"),
                scope: scope.map(var),
            };
            assert_eq!(
                PulsarConnector::connection_from_options(&mut options(&pairs)),
                Ok(config(oauth2))
            );
        }
    }
}

#[test]
fn unknown_authentication_is_refused() {
    let mut options = options(&[URL, ("authentication.type", "TOKEN"), ("namespace", "n")]);
    let error = PulsarConnector::connection_from_options(&mut options).unwrap_err();
    assert_eq!(error, Error::UnsupportedAuthentication { given: "TOKEN".to_string() });
    assert_eq!(error.message(), "unsupported Pulsar authentication type 'TOKEN'");
    assert!(!options.contains("namespace"));
}

#[test]
fn tls_is_said_when_one_of_its_options_is_set() {
    let with_file = Tls {
        certificate_chain_file: Some(var("/ca.pem")),
        allow_insecure_connection: None,
        tls_hostname_verification_enabled: None,
    };
    let with_flag = Tls {
        certificate_chain_file: None,
        allow_insecure_connection: Some(true),
        tls_hostname_verification_enabled: None,
    };
    let with_check = Tls {
        certificate_chain_file: None,
        allow_insecure_connection: None,
        tls_hostname_verification_enabled: Some(false),
    };
    for (name, value, tls) in [
        ("tls.certificateChainFile", "/ca.pem", with_file),
        ("tls.allowInsecureConnection", "true", with_flag),
        ("tls.tlsHostnameVerificationEnabled", "false", with_check),
    ] {
        let read = PulsarConnector::connection_from_options(&mut options(&[URL, (name, value)]));
        assert_eq!(read.unwrap().tls, Some(tls));
    }
}

#[test]
fn first_option_that_cannot_be_had_is_reported() {
    let mut options = options(&[URL, ("authentication.type", "Token")]);
    options.insert("tls.allowInsecureConnection".to_string(), number());
    options.insert("namespace".to_string(), number());
    assert_eq!(
        PulsarConnector::connection_from_options(&mut options),
        Err(Error::InvalidOption {
            name: "namespace".to_string(),
            reason: "expected a string".to_string(),
        })
    );
    assert!(options.contains("authentication.type"));
    assert!(options.contains("tls.allowInsecureConnection"));
}

#[test]
fn table_is_read_with_its_subscription_type() {
    for (given, kind) in [
        ("Exclusive", SubscriptionType::Exclusive),
        ("Failover", SubscriptionType::Failover),
        ("Shared", SubscriptionType::Shared),
        ("KeyShared", SubscriptionType::KeyShared),
        ("shared", SubscriptionType::Exclusive),
        ("anything", SubscriptionType::Exclusive),
    ] {
        let mut options = options(&[
            ("topic", "t"),
            ("subscription", "s"),
            ("subscriptionType", given),
            ("format", "json"),
        ]);
        assert_eq!(
            PulsarConnector::table_from_options(&mut options),
            Ok(PulsarTable {
                topic: "t".to_string(),
                subscription: "s".to_string(),
                subscription_type: Some(kind),
            })
        );
        assert!(options.contains("format"));
    }
    for kind in [
        SubscriptionType::Exclusive,
        SubscriptionType::Failover,
        SubscriptionType::Shared,
        SubscriptionType::KeyShared,
    ] {
        assert_eq!(SubscriptionType::from_name(&kind.name().to_string()), kind);
    }
}

#[test]
fn table_needs_a_topic_and_a_subscription() {
    assert_eq!(
        PulsarConnector::table_from_options(&mut options(&[("subscription", "s")])),
        Err(missing("topic"))
    );
    assert_eq!(
        PulsarConnector::table_from_options(&mut options(&[("topic", "t")])),
        Err(missing("subscription"))
    );
    let table = PulsarConnector::table_from_options(&mut options(&[
        ("topic", "t"),
        ("subscription", "s"),
    ]));
    assert_eq!(table.unwrap().subscription_type, None);
}

#[test]
fn table_is_the_same_after_the_connection_was_read() {
    let pairs = [URL, ("topic", "t"), ("subscription", "s"), ("subscriptionType", "Shared")];
    let mut both = options(&pairs);
    let _ = PulsarConnector::connection_from_options(&mut both);
    assert_eq!(
        PulsarConnector::table_from_options(&mut both),
        PulsarConnector::table_from_options(&mut options(&pairs))
    );
}
