//! The ways in which setting up a Pulsar connection fails.

use vstd::prelude::*;
use vstd::string::StringExecFns;

verus! {

/// Why no client could be set up: what was being done, and what went wrong with it.
#[derive(Debug, PartialEq, Eq)]
pub struct ConnectError {
    pub context: String,
    pub cause: String,
}

/// The view of a `ConnectError`.
#[verifier::ext_equal]
pub struct ConnectErrorView {
    pub context: Seq<char>,
    pub cause: Seq<char>,
}

impl View for ConnectError {
    type V = ConnectErrorView;

    open spec fn view(&self) -> ConnectErrorView {
        ConnectErrorView { context: self.context@, cause: self.cause@ }
    }
}

impl ConnectErrorView {
    /// The context, then the cause.
    pub open spec fn chain_text(self) -> Seq<char> {
        self.context + ": "@ + self.cause
    }
}

impl ConnectError {
    /// What was being done, followed by what went wrong with it.
    pub fn chain(&self) -> (res: String)
        ensures
            res@ == self@.chain_text(),
    {
        self.context.clone().concat(": ").concat(self.cause.as_str())
    }
}

/// The view of the outcome of asking for a client.
pub open spec fn connect_result(res: Result<(), ConnectError>) -> Result<(), ConnectErrorView> {
    match res {
        Ok(_) => Ok(()),
        Err(error) => Err(error@),
    }
}

/// Why options, a profile or a schema do not make a connection, or a listing was not made.
#[derive(Debug, PartialEq, Eq)]
pub enum Error {
    /// An option that has to be set is not.
    MissingOption { name: String },
    /// An option's value is not of the kind that is wanted, for the reason given.
    InvalidOption { name: String, reason: String },
    /// No way to authenticate has this name.
    UnsupportedAuthentication { given: String },
    /// A connection profile is not a Pulsar configuration, for the reason given.
    InvalidProfile { reason: String },
    /// A connection was asked for without a schema.
    MissingSchema,
    /// A connection was asked for with a schema that names no format.
    MissingFormat,
    /// A source was asked for without a format.
    FormatRequired,
    /// Topics were asked for without a namespace.
    NamespaceRequired,
    /// The broker did not list a namespace's topics, for the cause given.
    TopicListing { namespace: String, cause: String },
    /// No client could be set up.
    Connect(ConnectError),
}

/// The view of an `Error`.
#[verifier::ext_equal]
pub enum ErrorView {
    MissingOption { name: Seq<char> },
    InvalidOption { name: Seq<char>, reason: Seq<char> },
    UnsupportedAuthentication { given: Seq<char> },
    InvalidProfile { reason: Seq<char> },
    MissingSchema,
    MissingFormat,
    FormatRequired,
    NamespaceRequired,
    TopicListing { namespace: Seq<char>, cause: Seq<char> },
    Connect(ConnectErrorView),
}

impl View for Error {
    type V = ErrorView;

    open spec fn view(&self) -> ErrorView {
        match self {
            Error::MissingOption { name } => ErrorView::MissingOption { name: name@ },
            Error::InvalidOption { name, reason } => ErrorView::InvalidOption {
                name: name@,
                reason: reason@,
            },
            Error::UnsupportedAuthentication { given } => ErrorView::UnsupportedAuthentication {
                given: given@,
            },
            Error::InvalidProfile { reason } => ErrorView::InvalidProfile { reason: reason@ },
            Error::MissingSchema => ErrorView::MissingSchema,
            Error::MissingFormat => ErrorView::MissingFormat,
            Error::FormatRequired => ErrorView::FormatRequired,
            Error::NamespaceRequired => ErrorView::NamespaceRequired,
            Error::TopicListing { namespace, cause } => ErrorView::TopicListing {
                namespace: namespace@,
                cause: cause@,
            },
            Error::Connect(error) => ErrorView::Connect(error@),
        }
    }
}

impl ErrorView {
    /// The words in which the error is reported.
    pub open spec fn text(self) -> Seq<char> {
        match self {
            ErrorView::MissingOption { name } => "required option '"@ + name + "' is not set"@,
            ErrorView::InvalidOption { name, reason } => reason,
            ErrorView::UnsupportedAuthentication { given } =>
                "unsupported Pulsar authentication type '"@ + given + "'"@,
            ErrorView::InvalidProfile { reason } => reason,
            ErrorView::MissingSchema => "no schema defined for Pulsar connection"@,
            ErrorView::MissingFormat => "'format' must be set for Pulsar connection"@,
            ErrorView::FormatRequired => "format required for Pulsar source"@,
            ErrorView::NamespaceRequired =>
                "Pulsar namespace is required to list topic options"@,
            ErrorView::TopicListing { namespace, cause } =>
                "failed to list Pulsar topics in namespace '"@ + namespace + "': "@ + cause,
            ErrorView::Connect(error) => error.context,
        }
    }
}

impl Error {
    /// The words in which the error is reported. Of a failed connection it is the context alone.
    pub fn message(&self) -> (res: String)
        ensures
            res@ == self@.text(),
    {
        match self {
            Error::MissingOption { name } => "required option '".to_string().concat(
                name.as_str(),
            ).concat("' is not set"),
            Error::InvalidOption { name: _, reason } => reason.clone(),
            Error::UnsupportedAuthentication { given } =>
                "unsupported Pulsar authentication type '".to_string().concat(
                given.as_str(),
            ).concat("'"),
            Error::InvalidProfile { reason } => reason.clone(),
            Error::MissingSchema => "no schema defined for Pulsar connection".to_string(),
            Error::MissingFormat => "'format' must be set for Pulsar connection".to_string(),
            Error::FormatRequired => "format required for Pulsar source".to_string(),
            Error::NamespaceRequired =>
                "Pulsar namespace is required to list topic options".to_string(),
            Error::TopicListing { namespace, cause } =>
                "failed to list Pulsar topics in namespace '".to_string().concat(
                namespace.as_str(),
            ).concat("': ").concat(cause.as_str()),
            Error::Connect(error) => error.context.clone(),
        }
    }
}

} // verus!
