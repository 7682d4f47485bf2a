use pulsar_connector::{
    connect, ClientAuthentication, ClientSettings, ConnectAction, ConnectError, ConnectEvent,
    ConnectProgress, PulsarConfig, PulsarConfigAuthentication, Tls, VarStr,
};

fn var(raw: &str) -> VarStr {
    VarStr::new(raw.to_string())
}

fn config(authentication: PulsarConfigAuthentication, tls: Option<Tls>) -> PulsarConfig {
    PulsarConfig {
        service_url: "pulsar+ssl://b:6651".to_string(),
        namespace: None,
        authentication,
        tls,
    }
}

fn settings(authentication: Option<ClientAuthentication>) -> ClientSettings {
    ClientSettings {
        service_url: "pulsar+ssl://b:6651".to_string(),
        authentication,
        allow_insecure_connection: None,
        tls_hostname_verification_enabled: None,
    }
}

/// Sets a client up in a world where each text comes out in capitals but for those that are
/// `unset`, and files and brokers are as said. Gives the actions that were taken.
fn drive(
    config: &PulsarConfig,
    file: Result<(), String>,
    broker: Result<(), String>,
) -> Vec<ConnectAction> {
    let mut progress = ConnectProgress::new();
    let mut event = ConnectEvent::Begun;
    let mut actions = Vec::new();
    loop {
        assert!(progress.expects(config, &event));
        let (next, action) = connect(config, progress, event);
        progress = next;
        event = match &action {
            ConnectAction::Resolve { text } if text == "unset" => {
                ConnectEvent::Resolved(Err("not set".to_string()))
            }
            ConnectAction::Resolve { text } => ConnectEvent::Resolved(Ok(text.to_uppercase())),
            ConnectAction::LoadCertificateChain { .. } => ConnectEvent::Loaded(file.clone()),
            ConnectAction::Build(_) => ConnectEvent::Built(broker.clone()),
            ConnectAction::Finish(_) => {
                actions.push(action);
                assert!(!progress.expects(config, &ConnectEvent::Begun));
                return actions;
            }
        };
        actions.push(action);
    }
}

fn resolve(text: &str) -> ConnectAction {
    ConnectAction::Resolve { text: text.to_string() }
}

fn failed(context: &str, cause: &str) -> ConnectAction {
    ConnectAction::Finish(Err(ConnectError {
        context: context.to_string(),
        cause: cause.to_string(),
    }))
}

#[test]
fn plain_client_is_built_at_once() {
    let config = config(PulsarConfigAuthentication::Anonymous, None);
    assert_eq!(
        drive(&config, Ok(()), Ok(())),
        vec![ConnectAction::Build(settings(None)), ConnectAction::Finish(Ok(()))]
    );
}

#[test]
fn token_is_sent_as_bytes() {
    let config = config(PulsarConfigAuthentication::Token { token: var("tok\u{e9}n") }, None);
    let token = ClientAuthentication::Static {
        method: "token".to_string(),
        data: "TOK\u{c9}N".as_bytes().to_vec(),
    };
    assert_eq!(
        drive(&config, Ok(()), Ok(())),
        vec![
            resolve("tok\u{e9}n"),
            ConnectAction::Build(settings(Some(token))),
            ConnectAction::Finish(Ok(())),
        ]
    );
}

#[test]
fn name_and_password_are_sent_with_a_colon_between() {
    let basic = PulsarConfigAuthentication::Basic { username: var("u"), password: var("p") };
    let sent = ClientAuthentication::Static {
        method: "basic".to_string(),
        data: b"U:P".to_vec(),
    };
    assert_eq!(
        drive(&config(basic, None), Ok(()), Ok(())),
        vec![
            resolve("u"),
            resolve("p"),
            ConnectAction::Build(settings(Some(sent))),
            ConnectAction::Finish(Ok(())),
        ]
    );
}

#[test]
fn credentials_are_resolved_but_the_issuer_is_not() {
    for scope in [None, Some("s")] {
        let oauth2 = PulsarConfigAuthentication::OAuth2 {
            issuer_url: "https://issuer".to_string(),
            credentials_url: var("c"),
            audience: var("a"),
            scope: scope.map(var),
        };
        let sent = ClientAuthentication::OAuth2 {
            issuer_url: "https://issuer".to_string(),
            credentials_url: "C".to_string(),
            audience: Some("A".to_string()),
            scope: scope.map(|scope| scope.to_uppercase()),
        };
        let mut expected = vec![resolve("c"), resolve("a")];
        if let Some(scope) = scope {
            expected.push(resolve(scope));
        }
        expected.push(ConnectAction::Build(settings(Some(sent))));
        expected.push(ConnectAction::Finish(Ok(())));
        assert_eq!(drive(&config(oauth2, None), Ok(()), Ok(())), expected);
    }
}

fn secured(file: &str) -> PulsarConfig {
    config(
        PulsarConfigAuthentication::Token { token: var("t") },
        Some(Tls {
            certificate_chain_file: Some(var(file)),
            allow_insecure_connection: Some(true),
            tls_hostname_verification_enabled: Some(false),
        }),
    )
}

#[test]
fn certificates_are_read_before_the_client_is_built() {
    let mut built = settings(Some(ClientAuthentication::Static {
        method: "token".to_string(),
        data: b"T".to_vec(),
    }));
    built.allow_insecure_connection = Some(true);
    built.tls_hostname_verification_enabled = Some(false);
    assert_eq!(
        drive(&secured("/ca"), Ok(()), Ok(())),
        vec![
            resolve("t"),
            resolve("/ca"),
            ConnectAction::LoadCertificateChain { path: "/CA".to_string() },
            ConnectAction::Build(built),
            ConnectAction::Finish(Ok(())),
        ]
    );
}

#[test]
fn failures_are_told_with_what_was_being_done() {
    let no_file = drive(&secured("/ca"), Err("no such file".to_string()), Ok(()));
    assert_eq!(
        no_file.last(),
        Some(&failed("failed to read Pulsar certificate chain", "no such file"))
    );
    let no_path = drive(&secured("unset"), Ok(()), Ok(()));
    assert_eq!(
        no_path.last(),
        Some(&failed("invalid Pulsar certificate chain file", "not set"))
    );
    let refused = drive(&secured("/ca"), Ok(()), Err("refused".to_string()));
    assert_eq!(refused.last(), Some(&failed("failed to connect to Pulsar", "refused")));
    let error = ConnectError {
        context: "failed to connect to Pulsar".to_string(),
        cause: "refused".to_string(),
    };
    assert_eq!(error.chain(), "failed to connect to Pulsar: refused");
}

#[test]
fn first_text_that_does_not_come_out_ends_it() {
    let token = PulsarConfigAuthentication::Token { token: var("unset") };
    let no_name = PulsarConfigAuthentication::Basic { username: var("unset"), password: var("p") };
    let no_word = PulsarConfigAuthentication::Basic { username: var("u"), password: var("unset") };
    let oauth2 = |credentials: &str, audience: &str, scope: &str| PulsarConfigAuthentication::OAuth2 {
        issuer_url: "i".to_string(),
        credentials_url: var(credentials),
        audience: var(audience),
        scope: Some(var(scope)),
    };
    for (authentication, context, steps) in [
        (token, "invalid Pulsar token", 2),
        (no_name, "invalid Pulsar username", 2),
        (no_word, "invalid Pulsar password", 3),
        (oauth2("unset", "unset", "s"), "invalid Pulsar OAuth2 credentials URL", 2),
        (oauth2("c", "unset", "unset"), "invalid Pulsar OAuth2 audience", 3),
        (oauth2("c", "a", "unset"), "invalid Pulsar OAuth2 scope", 4),
    ] {
        let actions = drive(&config(authentication, None), Ok(()), Ok(()));
        assert_eq!(actions.last(), Some(&failed(context, "not set")));
        assert_eq!(actions.len(), steps);
    }
}

#[test]
fn what_was_not_asked_for_is_not_expected() {
    let config = secured("/ca");
    let progress = ConnectProgress::new();
    assert!(!progress.expects(&config, &ConnectEvent::Built(Ok(()))));
    assert!(!progress.expects(&config, &ConnectEvent::Loaded(Ok(()))));
    assert!(!progress.expects(&config, &ConnectEvent::Resolved(Ok("x".to_string()))));
    let (progress, _) = connect(&config, progress, ConnectEvent::Begun);
    assert!(!progress.expects(&config, &ConnectEvent::Begun));
    assert!(progress.expects(&config, &ConnectEvent::Resolved(Ok("x".to_string()))));
}
