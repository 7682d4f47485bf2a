//! What a table's options say: which of them are asked for, in which order, and what comes of it.

use crate::config::{AuthenticationView, ConfigView, SubscriptionType, TableView, TlsView};
use crate::error::ErrorView;
use crate::options::{flag_of, required_text_of, text_of, Options};
use vstd::prelude::*;

verus! {

/// In which way an option is asked for.
pub enum PullKind {
    /// As a string that has to be set.
    Required,
    /// As a string that may be left out.
    Optional,
    /// As a truth value that may be left out.
    Flag,
}

/// One option that is asked for.
pub struct Pull {
    pub name: Seq<char>,
    pub kind: PullKind,
}

/// Why an option cannot be had in the way it is asked for, if it cannot.
pub open spec fn pull_error(options: Options, pull: Pull) -> Option<ErrorView> {
    match pull.kind {
        PullKind::Required => match required_text_of(options, pull.name) {
            Ok(_) => None,
            Err(error) => Some(error),
        },
        PullKind::Optional => match text_of(options, pull.name) {
            Ok(_) => None,
            Err(error) => Some(error),
        },
        PullKind::Flag => match flag_of(options, pull.name) {
            Ok(_) => None,
            Err(error) => Some(error),
        },
    }
}

/// The first error that comes of asking for `pulls` in turn, from the one at `i` on.
pub open spec fn first_error(options: Options, pulls: Seq<Pull>, i: int) -> Option<ErrorView>
    decreases pulls.len() - i,
{
    if i < 0 || i >= pulls.len() {
        None
    } else {
        match pull_error(options, pulls[i]) {
            Some(error) => Some(error),
            None => first_error(options.remove(pulls[i].name), pulls, i + 1),
        }
    }
}

/// The options that are left when `pulls` were asked for in turn, from the one at `i` on, up to the
/// first that cannot be had, which is taken out too.
pub open spec fn left_after(options: Options, pulls: Seq<Pull>, i: int) -> Options
    decreases pulls.len() - i,
{
    if i < 0 || i >= pulls.len() {
        options
    } else {
        let rest = options.remove(pulls[i].name);
        match pull_error(options, pulls[i]) {
            Some(_) => rest,
            None => left_after(rest, pulls, i + 1),
        }
    }
}

/// One step of asking for `pulls` in turn.
pub(crate) proof fn lemma_pull(options: Options, pulls: Seq<Pull>, i: int)
    requires
        0 <= i < pulls.len(),
    ensures
        match pull_error(options, pulls[i]) {
            Some(error) => {
                &&& first_error(options, pulls, i) == Some(error)
                &&& left_after(options, pulls, i) == options.remove(pulls[i].name)
            },
            None => {
                &&& first_error(options, pulls, i) == first_error(
                    options.remove(pulls[i].name),
                    pulls,
                    i + 1,
                )
                &&& left_after(options, pulls, i) == left_after(
                    options.remove(pulls[i].name),
                    pulls,
                    i + 1,
                )
            },
        },
{
}

/// Asking for a string that has to be set.
pub open spec fn required(name: Seq<char>) -> Pull {
    Pull { name, kind: PullKind::Required }
}

/// Asking for a string that may be left out.
pub open spec fn optional(name: Seq<char>) -> Pull {
    Pull { name, kind: PullKind::Optional }
}

/// Asking for a truth value that may be left out.
pub open spec fn flag(name: Seq<char>) -> Pull {
    Pull { name, kind: PullKind::Flag }
}

/// The ways to authenticate that options can name.
pub enum AuthenticationKind {
    Anonymous,
    Token,
    Basic,
    OAuth2,
    /// What names no way to authenticate.
    Unsupported(Seq<char>),
}

/// The way to authenticate that the text of `authentication.type` names. Without it there is none.
pub open spec fn authentication_kind(given: Option<Seq<char>>) -> AuthenticationKind {
    match given {
        None => AuthenticationKind::Anonymous,
        Some(text) => if text == "Token"@ || text == "token"@ {
            AuthenticationKind::Token
        } else if text == "Basic"@ || text == "basic"@ {
            AuthenticationKind::Basic
        } else if text == "OAuth2"@ || text == "oauth2"@ {
            AuthenticationKind::OAuth2
        } else if text == "None"@ || text == "none"@ {
            AuthenticationKind::Anonymous
        } else {
            AuthenticationKind::Unsupported(text)
        },
    }
}

/// The way to authenticate that a table's options name. It is of no meaning where
/// `authentication.type` is no string.
pub open spec fn kind_of(options: Options) -> AuthenticationKind {
    authentication_kind(text_of(options, "authentication.type"@)->Ok_0)
}

/// The options that a connection is read from, in the order in which they are asked for.
pub open spec fn connection_pulls(kind: AuthenticationKind) -> Seq<Pull> {
    match kind {
        AuthenticationKind::Anonymous => seq![
            required("serviceUrl"@),
            optional("namespace"@),
            optional("authentication.type"@),
            optional("tls.certificateChainFile"@),
            flag("tls.allowInsecureConnection"@),
            flag("tls.tlsHostnameVerificationEnabled"@),
        ],
        AuthenticationKind::Token => seq![
            required("serviceUrl"@),
            optional("namespace"@),
            optional("authentication.type"@),
            required("authentication.token"@),
            optional("tls.certificateChainFile"@),
            flag("tls.allowInsecureConnection"@),
            flag("tls.tlsHostnameVerificationEnabled"@),
        ],
        AuthenticationKind::Basic => seq![
            required("serviceUrl"@),
            optional("namespace"@),
            optional("authentication.type"@),
            required("authentication.username"@),
            required("authentication.password"@),
            optional("tls.certificateChainFile"@),
            flag("tls.allowInsecureConnection"@),
            flag("tls.tlsHostnameVerificationEnabled"@),
        ],
        AuthenticationKind::OAuth2 => seq![
            required("serviceUrl"@),
            optional("namespace"@),
            optional("authentication.type"@),
            required("authentication.issuerUrl"@),
            required("authentication.credentialsUrl"@),
            required("authentication.audience"@),
            optional("authentication.scope"@),
            optional("tls.certificateChainFile"@),
            flag("tls.allowInsecureConnection"@),
            flag("tls.tlsHostnameVerificationEnabled"@),
        ],
        AuthenticationKind::Unsupported(_) => seq![
            required("serviceUrl"@),
            optional("namespace"@),
            optional("authentication.type"@),
        ],
    }
}

/// How a client is to authenticate, where every option that this takes can be had.
pub open spec fn authentication_value(options: Options) -> AuthenticationView {
    match kind_of(options) {
        AuthenticationKind::Token => AuthenticationView::Token {
            token: required_text_of(options, "authentication.token"@)->Ok_0,
        },
        AuthenticationKind::Basic => AuthenticationView::Basic {
            username: required_text_of(options, "authentication.username"@)->Ok_0,
            password: required_text_of(options, "authentication.password"@)->Ok_0,
        },
        AuthenticationKind::OAuth2 => AuthenticationView::OAuth2 {
            issuer_url: required_text_of(options, "authentication.issuerUrl"@)->Ok_0,
            credentials_url: required_text_of(options, "authentication.credentialsUrl"@)->Ok_0,
            audience: required_text_of(options, "authentication.audience"@)->Ok_0,
            scope: text_of(options, "authentication.scope"@)->Ok_0,
        },
        _ => AuthenticationView::Anonymous,
    }
}

/// How a client is to check the broker, where every option that this takes can be had. It is said
/// only where at least one of these options is set.
pub open spec fn tls_value(options: Options) -> Option<TlsView> {
    let tls = TlsView {
        certificate_chain_file: text_of(options, "tls.certificateChainFile"@)->Ok_0,
        allow_insecure_connection: flag_of(options, "tls.allowInsecureConnection"@)->Ok_0,
        tls_hostname_verification_enabled: flag_of(
            options,
            "tls.tlsHostnameVerificationEnabled"@,
        )->Ok_0,
    };
    if tls.certificate_chain_file is Some || tls.allow_insecure_connection is Some
        || tls.tls_hostname_verification_enabled is Some {
        Some(tls)
    } else {
        None
    }
}

/// The configuration that a table's options give, or why they give none.
pub open spec fn connection_of(options: Options) -> Result<ConfigView, ErrorView> {
    let kind = kind_of(options);
    match first_error(options, connection_pulls(kind), 0) {
        Some(error) => Err(error),
        None => match kind {
            AuthenticationKind::Unsupported(given) => Err(
                ErrorView::UnsupportedAuthentication { given },
            ),
            _ => Ok(
                ConfigView {
                    service_url: required_text_of(options, "serviceUrl"@)->Ok_0,
                    namespace: text_of(options, "namespace"@)->Ok_0,
                    authentication: authentication_value(options),
                    tls: tls_value(options),
                },
            ),
        },
    }
}

/// The options that are left when a connection was read from them.
pub open spec fn left_by_connection(options: Options) -> Options {
    left_after(options, connection_pulls(kind_of(options)), 0)
}

/// The names of a connection's options differ.
pub(crate) proof fn lemma_connection_names()
    ensures
        "serviceUrl"@.len() == 10,
        "namespace"@.len() == 9,
        "authentication.type"@.len() == 19,
        "authentication.token"@.len() == 20,
        "authentication.username"@.len() == 23,
        "authentication.password"@.len() == 23,
        "authentication.issuerUrl"@.len() == 24,
        "authentication.credentialsUrl"@.len() == 29,
        "authentication.audience"@.len() == 23,
        "authentication.scope"@.len() == 20,
        "tls.certificateChainFile"@.len() == 24,
        "tls.allowInsecureConnection"@.len() == 27,
        "tls.tlsHostnameVerificationEnabled"@.len() == 34,
        "authentication.username"@ != "authentication.password"@,
        "authentication.issuerUrl"@ != "tls.certificateChainFile"@,
{
    reveal_strlit("serviceUrl");
    reveal_strlit("namespace");
    reveal_strlit("authentication.type");
    reveal_strlit("authentication.token");
    reveal_strlit("authentication.username");
    reveal_strlit("authentication.password");
    reveal_strlit("authentication.issuerUrl");
    reveal_strlit("authentication.credentialsUrl");
    reveal_strlit("authentication.audience");
    reveal_strlit("authentication.scope");
    reveal_strlit("tls.certificateChainFile");
    reveal_strlit("tls.allowInsecureConnection");
    reveal_strlit("tls.tlsHostnameVerificationEnabled");
    assert("authentication.username"@[15] != "authentication.password"@[15]);
    assert("authentication.issuerUrl"@[0] != "tls.certificateChainFile"@[0]);
}

/// The options that a table is read from, in the order in which they are asked for.
pub open spec fn table_pulls() -> Seq<Pull> {
    seq![required("topic"@), required("subscription"@), optional("subscriptionType"@)]
}

/// The table that a table's options give, or why they give none. A subscription type that is set
/// but names no type is the exclusive one.
pub open spec fn table_of(options: Options) -> Result<TableView, ErrorView> {
    match first_error(options, table_pulls(), 0) {
        Some(error) => Err(error),
        None => Ok(
            TableView {
                topic: required_text_of(options, "topic"@)->Ok_0,
                subscription: required_text_of(options, "subscription"@)->Ok_0,
                subscription_type: match text_of(options, "subscriptionType"@)->Ok_0 {
                    Some(text) => Some(SubscriptionType::of_text(text)),
                    None => None,
                },
            },
        ),
    }
}

/// The options that are left when a table was read from them.
pub open spec fn left_by_table(options: Options) -> Options {
    left_after(options, table_pulls(), 0)
}

/// The names of a table's options differ.
pub(crate) proof fn lemma_table_names()
    ensures
        "topic"@.len() == 5,
        "subscription"@.len() == 12,
        "subscriptionType"@.len() == 16,
{
    reveal_strlit("topic");
    reveal_strlit("subscription");
    reveal_strlit("subscriptionType");
}

} // verus!
