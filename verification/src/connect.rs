//! Setting up a client: which texts have their environment variables put in, in which order, which
//! file is read, and how the client is set up in the end.

use crate::config::{
    opt_text, texts, AuthenticationView, ConfigView, PulsarConfig, PulsarConfigAuthentication,
};
use crate::error::{connect_result, ConnectError, ConnectErrorView};
use vstd::prelude::*;
use vstd::string::{StrSliceExecFns, StringExecFns};
use vstd::utf8::encode_utf8;

verus! {

/// A text whose environment variables are put in, and what is said if that fails.
pub struct NeedView {
    pub text: Seq<char>,
    pub context: Seq<char>,
}

/// A text to put environment variables in.
struct Need {
    text: String,
    context: String,
}

impl View for Need {
    type V = NeedView;

    closed spec fn view(&self) -> NeedView {
        NeedView { text: self.text@, context: self.context@ }
    }
}

/// The texts of an authentication.
pub open spec fn authentication_needs(authentication: AuthenticationView) -> Seq<NeedView> {
    match authentication {
        AuthenticationView::Anonymous => seq![],
        AuthenticationView::Token { token } => seq![
            NeedView { text: token, context: "invalid Pulsar token"@ },
        ],
        AuthenticationView::Basic { username, password } => seq![
            NeedView { text: username, context: "invalid Pulsar username"@ },
            NeedView { text: password, context: "invalid Pulsar password"@ },
        ],
        AuthenticationView::OAuth2 { issuer_url, credentials_url, audience, scope } => {
            let always = seq![
                NeedView {
                    text: credentials_url,
                    context: "invalid Pulsar OAuth2 credentials URL"@,
                },
                NeedView { text: audience, context: "invalid Pulsar OAuth2 audience"@ },
            ];
            match scope {
                Some(text) => always.push(
                    NeedView { text, context: "invalid Pulsar OAuth2 scope"@ },
                ),
                None => always,
            }
        },
    }
}

/// The file that holds the certificates which a client trusts, if one is named.
pub open spec fn certificate_file(config: ConfigView) -> Option<Seq<char>> {
    match config.tls {
        Some(tls) => tls.certificate_chain_file,
        None => None,
    }
}

/// The texts of a configuration whose environment variables are put in, in order. The name of the
/// certificate file comes last.
pub open spec fn needs_of(config: ConfigView) -> Seq<NeedView> {
    let needs = authentication_needs(config.authentication);
    match certificate_file(config) {
        Some(text) => needs.push(
            NeedView { text, context: "invalid Pulsar certificate chain file"@ },
        ),
        None => needs,
    }
}

/// The view of a list of texts.
spec fn needs_view(needs: Seq<Need>) -> Seq<NeedView> {
    needs.map_values(|need: Need| need@)
}

fn needs(config: &PulsarConfig) -> (res: Vec<Need>)
    ensures
        needs_view(res@) == needs_of(config@),
{
    let mut needs: Vec<Need> = Vec::new();
    match &config.authentication {
        PulsarConfigAuthentication::Anonymous => {},
        PulsarConfigAuthentication::Token { token } => {
            needs.push(
                Need { text: token.raw.clone(), context: "invalid Pulsar token".to_string() },
            );
        },
        PulsarConfigAuthentication::Basic { username, password } => {
            needs.push(
                Need { text: username.raw.clone(), context: "invalid Pulsar username".to_string() },
            );
            needs.push(
                Need { text: password.raw.clone(), context: "invalid Pulsar password".to_string() },
            );
        },
        PulsarConfigAuthentication::OAuth2 { issuer_url: _, credentials_url, audience, scope } => {
            needs.push(
                Need {
                    text: credentials_url.raw.clone(),
                    context: "invalid Pulsar OAuth2 credentials URL".to_string(),
                },
            );
            needs.push(
                Need {
                    text: audience.raw.clone(),
                    context: "invalid Pulsar OAuth2 audience".to_string(),
                },
            );
            if let Some(scope) = scope {
                needs.push(
                    Need {
                        text: scope.raw.clone(),
                        context: "invalid Pulsar OAuth2 scope".to_string(),
                    },
                );
            }
        },
    }
    proof {
        assert(needs_view(needs@) =~= authentication_needs(config@.authentication));
    }
    let ghost so_far = needs@;
    if let Some(tls) = &config.tls {
        if let Some(file) = &tls.certificate_chain_file {
            needs.push(
                Need {
                    text: file.raw.clone(),
                    context: "invalid Pulsar certificate chain file".to_string(),
                },
            );
            proof {
                assert(needs_view(needs@) =~= needs_view(so_far).push(needs@.last()@));
            }
        }
    }
    needs
}

/// How a client that is set up proves who it is.
#[derive(Debug, PartialEq, Eq)]
pub enum ClientAuthentication {
    /// With data that is sent as it stands, under a method's name.
    Static { method: String, data: Vec<u8> },
    /// With credentials that an issuer turns into a token.
    OAuth2 {
        issuer_url: String,
        credentials_url: String,
        audience: Option<String>,
        scope: Option<String>,
    },
}

/// The view of a `ClientAuthentication`.
#[verifier::ext_equal]
pub enum ClientAuthenticationView {
    Static { method: Seq<char>, data: Seq<u8> },
    OAuth2 {
        issuer_url: Seq<char>,
        credentials_url: Seq<char>,
        audience: Option<Seq<char>>,
        scope: Option<Seq<char>>,
    },
}

impl View for ClientAuthentication {
    type V = ClientAuthenticationView;

    open spec fn view(&self) -> ClientAuthenticationView {
        match self {
            ClientAuthentication::Static { method, data } => ClientAuthenticationView::Static {
                method: method@,
                data: data@,
            },
            ClientAuthentication::OAuth2 { issuer_url, credentials_url, audience, scope } =>
                ClientAuthenticationView::OAuth2 {
                issuer_url: issuer_url@,
                credentials_url: credentials_url@,
                audience: opt_text(*audience),
                scope: opt_text(*scope),
            },
        }
    }
}

/// How a client is set up, but for the certificates that it trusts, which are read before. What is
/// not set is left as the client has it.
#[derive(Debug, PartialEq, Eq)]
pub struct ClientSettings {
    pub service_url: String,
    pub authentication: Option<ClientAuthentication>,
    pub allow_insecure_connection: Option<bool>,
    pub tls_hostname_verification_enabled: Option<bool>,
}

/// The view of a `ClientSettings`.
#[verifier::ext_equal]
pub struct SettingsView {
    pub service_url: Seq<char>,
    pub authentication: Option<ClientAuthenticationView>,
    pub allow_insecure_connection: Option<bool>,
    pub tls_hostname_verification_enabled: Option<bool>,
}

impl View for ClientSettings {
    type V = SettingsView;

    open spec fn view(&self) -> SettingsView {
        SettingsView {
            service_url: self.service_url@,
            authentication: match self.authentication {
                Some(authentication) => Some(authentication@),
                None => None,
            },
            allow_insecure_connection: self.allow_insecure_connection,
            tls_hostname_verification_enabled: self.tls_hostname_verification_enabled,
        }
    }
}

/// How a client proves who it is, when the texts of a configuration came out as `resolved`.
pub open spec fn client_authentication_of(
    authentication: AuthenticationView,
    resolved: Seq<Seq<char>>,
) -> Option<ClientAuthenticationView> {
    match authentication {
        AuthenticationView::Anonymous => None,
        AuthenticationView::Token { token } => Some(
            ClientAuthenticationView::Static {
                method: "token"@,
                data: encode_utf8(resolved[0]),
            },
        ),
        AuthenticationView::Basic { username, password } => Some(
            ClientAuthenticationView::Static {
                method: "basic"@,
                data: encode_utf8(resolved[0] + ":"@ + resolved[1]),
            },
        ),
        AuthenticationView::OAuth2 { issuer_url, credentials_url, audience, scope } => Some(
            ClientAuthenticationView::OAuth2 {
                issuer_url,
                credentials_url: resolved[0],
                audience: Some(resolved[1]),
                scope: match scope {
                    Some(_) => Some(resolved[2]),
                    None => None,
                },
            },
        ),
    }
}

/// How a client is set up, when the texts of a configuration came out as `resolved`.
pub open spec fn settings_of(config: ConfigView, resolved: Seq<Seq<char>>) -> SettingsView {
    SettingsView {
        service_url: config.service_url,
        authentication: client_authentication_of(config.authentication, resolved),
        allow_insecure_connection: match config.tls {
            Some(tls) => tls.allow_insecure_connection,
            None => None,
        },
        tls_hostname_verification_enabled: match config.tls {
            Some(tls) => tls.tls_hostname_verification_enabled,
            None => None,
        },
    }
}

/// What is being waited for while a client is set up.
#[derive(Clone, Copy, Debug, PartialEq, Eq, Structural)]
pub enum ConnectStage {
    /// Nothing was done yet.
    Created,
    /// A text's environment variables are put in.
    Resolving,
    /// The certificate file is read.
    Loading,
    /// The client is built and connected.
    Building,
    /// It is over.
    Ended,
}

/// How far the setting up of a client has come.
#[derive(Debug, PartialEq, Eq)]
pub struct ConnectProgress {
    stage: ConnectStage,
    resolved: Vec<String>,
}

/// The view of a `ConnectProgress`: what is being waited for, and what became of the texts so far.
#[verifier::ext_equal]
pub struct ConnectProgressView {
    pub stage: ConnectStage,
    pub resolved: Seq<Seq<char>>,
}

impl View for ConnectProgress {
    type V = ConnectProgressView;

    closed spec fn view(&self) -> ConnectProgressView {
        ConnectProgressView {
            stage: self.stage,
            resolved: texts(self.resolved@),
        }
    }
}

impl ConnectProgressView {
    /// Nothing was done yet.
    pub open spec fn created() -> ConnectProgressView {
        ConnectProgressView { stage: ConnectStage::Created, resolved: seq![] }
    }

    /// Whether setting up a client with `config` can have come this far.
    pub open spec fn fits(self, config: ConfigView) -> bool {
        match self.stage {
            ConnectStage::Created => self.resolved.len() == 0,
            ConnectStage::Resolving => self.resolved.len() < needs_of(config).len(),
            ConnectStage::Loading => {
                &&& self.resolved.len() == needs_of(config).len()
                &&& certificate_file(config) is Some
            },
            ConnectStage::Building => self.resolved.len() == needs_of(config).len(),
            ConnectStage::Ended => true,
        }
    }

    /// Whether this is what is being waited for.
    pub open spec fn awaits(self, event: ConnectEventView) -> bool {
        match event {
            ConnectEventView::Begun => self.stage == ConnectStage::Created,
            ConnectEventView::Resolved(_) => self.stage == ConnectStage::Resolving,
            ConnectEventView::Loaded(_) => self.stage == ConnectStage::Loading,
            ConnectEventView::Built(_) => self.stage == ConnectStage::Building,
        }
    }
}

/// What happened while a client is set up. A failure carries its cause.
#[derive(Debug, PartialEq, Eq)]
pub enum ConnectEvent {
    /// A client is wanted.
    Begun,
    /// A text's environment variables were put in.
    Resolved(Result<String, String>),
    /// The certificate file was read.
    Loaded(Result<(), String>),
    /// The client was built and connected.
    Built(Result<(), String>),
}

/// The view of a `ConnectEvent`.
#[verifier::ext_equal]
pub enum ConnectEventView {
    Begun,
    Resolved(Result<Seq<char>, Seq<char>>),
    Loaded(Result<(), Seq<char>>),
    Built(Result<(), Seq<char>>),
}

/// The view of an outcome whose failure carries its cause.
pub open spec fn outcome_view(outcome: Result<(), String>) -> Result<(), Seq<char>> {
    match outcome {
        Ok(_) => Ok(()),
        Err(cause) => Err(cause@),
    }
}

impl View for ConnectEvent {
    type V = ConnectEventView;

    open spec fn view(&self) -> ConnectEventView {
        match self {
            ConnectEvent::Begun => ConnectEventView::Begun,
            ConnectEvent::Resolved(outcome) => ConnectEventView::Resolved(
                match outcome {
                    Ok(text) => Ok(text@),
                    Err(cause) => Err(cause@),
                },
            ),
            ConnectEvent::Loaded(outcome) => ConnectEventView::Loaded(outcome_view(*outcome)),
            ConnectEvent::Built(outcome) => ConnectEventView::Built(outcome_view(*outcome)),
        }
    }
}

/// What setting up a client does next.
#[derive(Debug, PartialEq, Eq)]
pub enum ConnectAction {
    /// Put the environment variables in that a text refers to.
    Resolve { text: String },
    /// Trust the certificates that a file holds.
    LoadCertificateChain { path: String },
    /// Build the client and connect it.
    Build(ClientSettings),
    /// End.
    Finish(Result<(), ConnectError>),
}

/// The view of a `ConnectAction`.
#[verifier::ext_equal]
pub enum ConnectActionView {
    Resolve { text: Seq<char> },
    LoadCertificateChain { path: Seq<char> },
    Build(SettingsView),
    Finish(Result<(), ConnectErrorView>),
}

impl View for ConnectAction {
    type V = ConnectActionView;

    open spec fn view(&self) -> ConnectActionView {
        match self {
            ConnectAction::Resolve { text } => ConnectActionView::Resolve { text: text@ },
            ConnectAction::LoadCertificateChain { path } =>
                ConnectActionView::LoadCertificateChain { path: path@ },
            ConnectAction::Build(settings) => ConnectActionView::Build(settings@),
            ConnectAction::Finish(outcome) => ConnectActionView::Finish(
                connect_result(*outcome),
            ),
        }
    }
}

/// One step: how far things have come afterwards, and what is done next.
#[verifier::ext_equal]
pub struct ConnectStep {
    pub progress: ConnectProgressView,
    pub action: ConnectActionView,
}

/// The end, with a failure.
pub open spec fn connect_fails(
    resolved: Seq<Seq<char>>,
    context: Seq<char>,
    cause: Seq<char>,
) -> ConnectStep {
    ConnectStep {
        progress: ConnectProgressView { stage: ConnectStage::Ended, resolved },
        action: ConnectActionView::Finish(Err(ConnectErrorView { context, cause })),
    }
}

/// Building the client, when every text came out and the certificates were read.
pub open spec fn connect_builds(config: ConfigView, resolved: Seq<Seq<char>>) -> ConnectStep {
    ConnectStep {
        progress: ConnectProgressView { stage: ConnectStage::Building, resolved },
        action: ConnectActionView::Build(settings_of(config, resolved)),
    }
}

/// What is done when the first texts came out as `resolved`: the next text, or the file that the
/// last one names, or the client.
pub open spec fn connect_goes_on(config: ConfigView, resolved: Seq<Seq<char>>) -> ConnectStep {
    if resolved.len() < needs_of(config).len() {
        ConnectStep {
            progress: ConnectProgressView { stage: ConnectStage::Resolving, resolved },
            action: ConnectActionView::Resolve {
                text: needs_of(config)[resolved.len() as int].text,
            },
        }
    } else if certificate_file(config) is Some {
        ConnectStep {
            progress: ConnectProgressView { stage: ConnectStage::Loading, resolved },
            action: ConnectActionView::LoadCertificateChain { path: resolved.last() },
        }
    } else {
        connect_builds(config, resolved)
    }
}

/// The step that an event leads to.
pub open spec fn connect_step(
    config: ConfigView,
    progress: ConnectProgressView,
    event: ConnectEventView,
) -> ConnectStep {
    let resolved = progress.resolved;
    match event {
        ConnectEventView::Begun => connect_goes_on(config, resolved),
        ConnectEventView::Resolved(Ok(text)) => connect_goes_on(config, resolved.push(text)),
        ConnectEventView::Resolved(Err(cause)) => connect_fails(
            resolved,
            needs_of(config)[resolved.len() as int].context,
            cause,
        ),
        ConnectEventView::Loaded(Ok(_)) => connect_builds(config, resolved),
        ConnectEventView::Loaded(Err(cause)) => connect_fails(
            resolved,
            "failed to read Pulsar certificate chain"@,
            cause,
        ),
        ConnectEventView::Built(Ok(_)) => ConnectStep {
            progress: ConnectProgressView { stage: ConnectStage::Ended, resolved },
            action: ConnectActionView::Finish(Ok(())),
        },
        ConnectEventView::Built(Err(cause)) => connect_fails(
            resolved,
            "failed to connect to Pulsar"@,
            cause,
        ),
    }
}

impl ConnectProgress {
    /// Nothing was done yet.
    pub fn new() -> (res: ConnectProgress)
        ensures
            res@ == ConnectProgressView::created(),
            forall|config: ConfigView| res@.fits(config),
    {
        let res = ConnectProgress { stage: ConnectStage::Created, resolved: Vec::new() };
        proof {
            assert(res@.resolved =~= seq![]);
        }
        res
    }

    /// Whether setting up a client with `config` can have come this far, and now waits for `event`.
    pub fn expects(&self, config: &PulsarConfig, event: &ConnectEvent) -> (res: bool)
        ensures
            res == (self@.fits(config@) && self@.awaits(event@)),
    {
        let wanted = needs(config);
        proof {
            assert(wanted@.len() == needs_view(wanted@).len());
        }
        match (event, self.stage) {
            (ConnectEvent::Begun, ConnectStage::Created) => self.resolved.len() == 0,
            (ConnectEvent::Resolved(_), ConnectStage::Resolving) => self.resolved.len()
                < wanted.len(),
            (ConnectEvent::Loaded(_), ConnectStage::Loading) => self.resolved.len() == wanted.len()
                && names_certificate_file(config),
            (ConnectEvent::Built(_), ConnectStage::Building) => self.resolved.len()
                == wanted.len(),
            _ => false,
        }
    }
}

/// Whether a file with certificates is named.
fn names_certificate_file(config: &PulsarConfig) -> (res: bool)
    ensures
        res == (certificate_file(config@) is Some),
{
    match &config.tls {
        Some(tls) => tls.certificate_chain_file.is_some(),
        None => false,
    }
}

fn client_settings(config: &PulsarConfig, resolved: &Vec<String>) -> (res: ClientSettings)
    requires
        resolved@.len() == needs_of(config@).len(),
    ensures
        res@ == settings_of(config@, texts(resolved@)),
{
    let authentication = match &config.authentication {
        PulsarConfigAuthentication::Anonymous => None,
        PulsarConfigAuthentication::Token { token: _ } => Some(
            ClientAuthentication::Static {
                method: "token".to_string(),
                data: resolved[0].as_str().as_bytes_vec(),
            },
        ),
        PulsarConfigAuthentication::Basic { username: _, password: _ } => {
            let pair = resolved[0].clone().concat(":").concat(resolved[1].as_str());
            Some(
                ClientAuthentication::Static {
                    method: "basic".to_string(),
                    data: pair.as_str().as_bytes_vec(),
                },
            )
        },
        PulsarConfigAuthentication::OAuth2 { issuer_url, credentials_url: _, audience: _, scope } =>
            Some(
            ClientAuthentication::OAuth2 {
                issuer_url: issuer_url.clone(),
                credentials_url: resolved[0].clone(),
                audience: Some(resolved[1].clone()),
                scope: match scope {
                    Some(_) => Some(resolved[2].clone()),
                    None => None,
                },
            },
        ),
    };
    let (allow_insecure_connection, tls_hostname_verification_enabled) = match &config.tls {
        Some(tls) => (tls.allow_insecure_connection, tls.tls_hostname_verification_enabled),
        None => (None, None),
    };
    ClientSettings {
        service_url: config.service_url.clone(),
        authentication,
        allow_insecure_connection,
        tls_hostname_verification_enabled,
    }
}

fn fail(resolved: Vec<String>, context: String, cause: String) -> (res: (
    ConnectProgress,
    ConnectAction,
))
    ensures
        (ConnectStep { progress: res.0@, action: res.1@ }) == connect_fails(
            texts(resolved@),
            context@,
            cause@,
        ),
{
    (
        ConnectProgress { stage: ConnectStage::Ended, resolved },
        ConnectAction::Finish(Err(ConnectError { context, cause })),
    )
}

fn build(config: &PulsarConfig, resolved: Vec<String>) -> (res: (ConnectProgress, ConnectAction))
    requires
        resolved@.len() == needs_of(config@).len(),
    ensures
        (ConnectStep { progress: res.0@, action: res.1@ }) == connect_builds(
            config@,
            texts(resolved@),
        ),
{
    let settings = client_settings(config, &resolved);
    (ConnectProgress { stage: ConnectStage::Building, resolved }, ConnectAction::Build(settings))
}

fn go_on(config: &PulsarConfig, resolved: Vec<String>) -> (res: (ConnectProgress, ConnectAction))
    requires
        resolved@.len() <= needs_of(config@).len(),
    ensures
        (ConnectStep { progress: res.0@, action: res.1@ }) == connect_goes_on(
            config@,
            texts(resolved@),
        ),
{
    let needs = needs(config);
    proof {
        assert(needs@.len() == needs_view(needs@).len());
    }
    if resolved.len() < needs.len() {
        let text = needs[resolved.len()].text.clone();
        proof {
            assert(needs_view(needs@)[resolved@.len() as int] == needs@[resolved@.len() as int]@);
        }
        return (
            ConnectProgress { stage: ConnectStage::Resolving, resolved },
            ConnectAction::Resolve { text },
        );
    }
    if names_certificate_file(config) {
        let path = resolved[resolved.len() - 1].clone();
        (
            ConnectProgress { stage: ConnectStage::Loading, resolved },
            ConnectAction::LoadCertificateChain { path },
        )
    } else {
        build(config, resolved)
    }
}

/// Sets a client up, step by step: takes how far things have come and what happened, and says how
/// far they have come then and what to do next.
pub fn connect(config: &PulsarConfig, progress: ConnectProgress, event: ConnectEvent) -> (res: (
    ConnectProgress,
    ConnectAction,
))
    requires
        progress@.fits(config@),
        progress@.awaits(event@),
    ensures
        res.0@.fits(config@),
        (ConnectStep { progress: res.0@, action: res.1@ }) == connect_step(
            config@,
            progress@,
            event@,
        ),
{
    let mut resolved = progress.resolved;
    match event {
        ConnectEvent::Begun => go_on(config, resolved),
        ConnectEvent::Resolved(Ok(text)) => {
            let ghost before = resolved@;
            resolved.push(text);
            proof {
                assert(texts(resolved@) =~= texts(before).push(text@));
            }
            go_on(config, resolved)
        },
        ConnectEvent::Resolved(Err(cause)) => {
            let needs = needs(config);
            proof {
                assert(needs_view(needs@)[resolved@.len() as int] == needs@[resolved@.len() as int]@);
            }
            let context = needs[resolved.len()].context.clone();
            fail(resolved, context, cause)
        },
        ConnectEvent::Loaded(Ok(_)) => build(config, resolved),
        ConnectEvent::Loaded(Err(cause)) => fail(
            resolved,
            "failed to read Pulsar certificate chain".to_string(),
            cause,
        ),
        ConnectEvent::Built(Ok(_)) => (
            ConnectProgress { stage: ConnectStage::Ended, resolved },
            ConnectAction::Finish(Ok(())),
        ),
        ConnectEvent::Built(Err(cause)) => fail(
            resolved,
            "failed to connect to Pulsar".to_string(),
            cause,
        ),
    }
}

} // verus!
