//! The configuration of a Pulsar connection and of a table that reads from it.

use vstd::prelude::*;

verus! {

/// The view of an optional string.
pub open spec fn opt_text(s: Option<String>) -> Option<Seq<char>> {
    match s {
        Some(s) => Some(s@),
        None => None,
    }
}

/// The view of a list of strings.
pub open spec fn texts(list: Seq<String>) -> Seq<Seq<char>> {
    list.map_values(|text: String| text@)
}

/// A string that may refer to environment variables, which are put in when a client is set up.
#[derive(Debug, PartialEq, Eq)]
pub struct VarStr {
    pub raw: String,
}

impl View for VarStr {
    type V = Seq<char>;

    open spec fn view(&self) -> Seq<char> {
        self.raw@
    }
}

impl VarStr {
    /// Wraps a string as it was written.
    pub fn new(raw: String) -> (res: VarStr)
        ensures
            res@ == raw@,
    {
        VarStr { raw }
    }
}

impl Clone for VarStr {
    fn clone(&self) -> (res: Self)
        ensures
            res == *self,
    {
        VarStr { raw: self.raw.clone() }
    }
}

/// The view of an optional variable string.
pub open spec fn opt_var(s: Option<VarStr>) -> Option<Seq<char>> {
    match s {
        Some(s) => Some(s@),
        None => None,
    }
}

/// Copies an optional variable string.
fn clone_opt_var(s: &Option<VarStr>) -> (res: Option<VarStr>)
    ensures
        res == *s,
{
    match s {
        Some(s) => Some(s.clone()),
        None => None,
    }
}

/// How a client proves who it is.
#[derive(Debug, PartialEq, Eq)]
pub enum PulsarConfigAuthentication {
    Anonymous,
    Token { token: VarStr },
    Basic { username: VarStr, password: VarStr },
    OAuth2 {
        issuer_url: String,
        credentials_url: VarStr,
        audience: VarStr,
        scope: Option<VarStr>,
    },
}

/// The view of a `PulsarConfigAuthentication`.
#[verifier::ext_equal]
pub enum AuthenticationView {
    Anonymous,
    Token { token: Seq<char> },
    Basic { username: Seq<char>, password: Seq<char> },
    OAuth2 {
        issuer_url: Seq<char>,
        credentials_url: Seq<char>,
        audience: Seq<char>,
        scope: Option<Seq<char>>,
    },
}

impl View for PulsarConfigAuthentication {
    type V = AuthenticationView;

    open spec fn view(&self) -> AuthenticationView {
        match self {
            PulsarConfigAuthentication::Anonymous => AuthenticationView::Anonymous,
            PulsarConfigAuthentication::Token { token } => AuthenticationView::Token {
                token: token@,
            },
            PulsarConfigAuthentication::Basic { username, password } => AuthenticationView::Basic {
                username: username@,
                password: password@,
            },
            PulsarConfigAuthentication::OAuth2 { issuer_url, credentials_url, audience, scope } =>
                AuthenticationView::OAuth2 {
                issuer_url: issuer_url@,
                credentials_url: credentials_url@,
                audience: audience@,
                scope: opt_var(*scope),
            },
        }
    }
}

impl Clone for PulsarConfigAuthentication {
    fn clone(&self) -> (res: Self)
        ensures
            res == *self,
    {
        match self {
            PulsarConfigAuthentication::Anonymous => PulsarConfigAuthentication::Anonymous,
            PulsarConfigAuthentication::Token { token } => PulsarConfigAuthentication::Token {
                token: token.clone(),
            },
            PulsarConfigAuthentication::Basic { username, password } =>
                PulsarConfigAuthentication::Basic {
                username: username.clone(),
                password: password.clone(),
            },
            PulsarConfigAuthentication::OAuth2 { issuer_url, credentials_url, audience, scope } =>
                PulsarConfigAuthentication::OAuth2 {
                issuer_url: issuer_url.clone(),
                credentials_url: credentials_url.clone(),
                audience: audience.clone(),
                scope: clone_opt_var(scope),
            },
        }
    }
}

/// How a client checks the broker it talks to. Each part that is not set is left to the client.
#[derive(Debug, PartialEq, Eq)]
pub struct Tls {
    pub certificate_chain_file: Option<VarStr>,
    pub allow_insecure_connection: Option<bool>,
    pub tls_hostname_verification_enabled: Option<bool>,
}

/// The view of a `Tls`.
#[verifier::ext_equal]
pub struct TlsView {
    pub certificate_chain_file: Option<Seq<char>>,
    pub allow_insecure_connection: Option<bool>,
    pub tls_hostname_verification_enabled: Option<bool>,
}

impl View for Tls {
    type V = TlsView;

    open spec fn view(&self) -> TlsView {
        TlsView {
            certificate_chain_file: opt_var(self.certificate_chain_file),
            allow_insecure_connection: self.allow_insecure_connection,
            tls_hostname_verification_enabled: self.tls_hostname_verification_enabled,
        }
    }
}

impl Clone for Tls {
    fn clone(&self) -> (res: Self)
        ensures
            res == *self,
    {
        Tls {
            certificate_chain_file: clone_opt_var(&self.certificate_chain_file),
            allow_insecure_connection: self.allow_insecure_connection,
            tls_hostname_verification_enabled: self.tls_hostname_verification_enabled,
        }
    }
}

/// The view of an optional `Tls`.
pub open spec fn opt_tls(tls: Option<Tls>) -> Option<TlsView> {
    match tls {
        Some(tls) => Some(tls@),
        None => None,
    }
}

/// Where a Pulsar cluster is and how to get in.
#[derive(Debug, PartialEq, Eq)]
pub struct PulsarConfig {
    pub service_url: String,
    pub namespace: Option<String>,
    pub authentication: PulsarConfigAuthentication,
    pub tls: Option<Tls>,
}

/// The view of a `PulsarConfig`.
#[verifier::ext_equal]
pub struct ConfigView {
    pub service_url: Seq<char>,
    pub namespace: Option<Seq<char>>,
    pub authentication: AuthenticationView,
    pub tls: Option<TlsView>,
}

impl View for PulsarConfig {
    type V = ConfigView;

    open spec fn view(&self) -> ConfigView {
        ConfigView {
            service_url: self.service_url@,
            namespace: opt_text(self.namespace),
            authentication: self.authentication@,
            tls: opt_tls(self.tls),
        }
    }
}

impl Clone for PulsarConfig {
    fn clone(&self) -> (res: Self)
        ensures
            res == *self,
    {
        PulsarConfig {
            service_url: self.service_url.clone(),
            namespace: match &self.namespace {
                Some(namespace) => Some(namespace.clone()),
                None => None,
            },
            authentication: self.authentication.clone(),
            tls: match &self.tls {
                Some(tls) => Some(tls.clone()),
                None => None,
            },
        }
    }
}

/// How the broker shares a subscription's messages out among its consumers.
#[derive(Clone, Copy, Debug, PartialEq, Eq, Structural)]
pub enum SubscriptionType {
    Exclusive,
    Failover,
    Shared,
    KeyShared,
}

impl SubscriptionType {
    /// The name under which a table's options and its serialized form give the type.
    pub open spec fn text(self) -> Seq<char> {
        match self {
            SubscriptionType::Exclusive => "Exclusive"@,
            SubscriptionType::Failover => "Failover"@,
            SubscriptionType::Shared => "Shared"@,
            SubscriptionType::KeyShared => "KeyShared"@,
        }
    }

    /// The type that an option's text stands for: what no type is named is exclusive.
    pub open spec fn of_text(text: Seq<char>) -> SubscriptionType {
        if text == SubscriptionType::Failover.text() {
            SubscriptionType::Failover
        } else if text == SubscriptionType::Shared.text() {
            SubscriptionType::Shared
        } else if text == SubscriptionType::KeyShared.text() {
            SubscriptionType::KeyShared
        } else {
            SubscriptionType::Exclusive
        }
    }

    /// The name of the type.
    pub fn name(&self) -> (res: &'static str)
        ensures
            res@ == self.text(),
    {
        match self {
            SubscriptionType::Exclusive => "Exclusive",
            SubscriptionType::Failover => "Failover",
            SubscriptionType::Shared => "Shared",
            SubscriptionType::KeyShared => "KeyShared",
        }
    }

    /// The type with the given name, or `Exclusive` where no type has it.
    pub fn from_name(name: &String) -> (res: SubscriptionType)
        ensures
            res == SubscriptionType::of_text(name@),
    {
        if *name == "Failover".to_string() {
            SubscriptionType::Failover
        } else if *name == "Shared".to_string() {
            SubscriptionType::Shared
        } else if *name == "KeyShared".to_string() {
            SubscriptionType::KeyShared
        } else {
            SubscriptionType::Exclusive
        }
    }
}

/// What a table reads, and through which subscription.
#[derive(Debug, PartialEq, Eq)]
pub struct PulsarTable {
    pub topic: String,
    pub subscription: String,
    pub subscription_type: Option<SubscriptionType>,
}

/// The view of a `PulsarTable`.
#[verifier::ext_equal]
pub struct TableView {
    pub topic: Seq<char>,
    pub subscription: Seq<char>,
    pub subscription_type: Option<SubscriptionType>,
}

impl View for PulsarTable {
    type V = TableView;

    open spec fn view(&self) -> TableView {
        TableView {
            topic: self.topic@,
            subscription: self.subscription@,
            subscription_type: self.subscription_type,
        }
    }
}

/// The view of a list of named strings.
pub open spec fn fields_view(fields: Seq<(String, String)>) -> Seq<(Seq<char>, Seq<char>)> {
    fields.map_values(|field: (String, String)| (field.0@, field.1@))
}

impl TableView {
    /// The members of the table's serialized form. A subscription type that is not set has none.
    pub open spec fn fields(self) -> Seq<(Seq<char>, Seq<char>)> {
        match self.subscription_type {
            Some(kind) => seq![
                ("subscription"@, self.subscription),
                ("subscriptionType"@, kind.text()),
                ("topic"@, self.topic),
            ],
            None => seq![("subscription"@, self.subscription), ("topic"@, self.topic)],
        }
    }
}

impl PulsarTable {
    /// The members of the table's serialized form, by name.
    pub fn fields(&self) -> (res: Vec<(String, String)>)
        ensures
            fields_view(res@) == self@.fields(),
    {
        let mut fields: Vec<(String, String)> = Vec::new();
        fields.push(("subscription".to_string(), self.subscription.clone()));
        if let Some(kind) = &self.subscription_type {
            fields.push(("subscriptionType".to_string(), kind.name().to_string()));
        }
        fields.push(("topic".to_string(), self.topic.clone()));
        proof {
            assert(fields_view(fields@) =~= self@.fields());
        }
        fields
    }
}

} // verus!
