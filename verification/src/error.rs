//! The two kinds of failure: at construction and at delivery.

use vstd::prelude::*;
use vstd::string::StringExecFns;

verus! {

/// Why no appender could be constructed.
#[derive(Clone, Debug, PartialEq, Eq)]
pub enum ConfigError {
    /// Resolving the SMTP server's name failed; `cause` is what the
    /// resolver reported.
    UnresolvedSmtpServer { server: String, cause: String },
    /// Resolving the SMTP server's name succeeded but gave no address.
    NoSmtpServerAddress { server: String },
    /// No encoder was supplied. Nothing stands in for a missing encoder.
    MissingEncoder,
}

/// What a [`ConfigError`] says, with texts as sequences of characters.
pub enum ConfigErrorModel {
    UnresolvedSmtpServer { server: Seq<char>, cause: Seq<char> },
    NoSmtpServerAddress { server: Seq<char> },
    MissingEncoder,
}

impl ConfigErrorModel {
    /// The sentence that describes the error.
    pub open spec fn text(self) -> Seq<char> {
        match self {
            ConfigErrorModel::UnresolvedSmtpServer { server, cause } => {
                "cannot resolve SMTP server "@ + server + ": "@ + cause
            },
            ConfigErrorModel::NoSmtpServerAddress { server } => {
                "no address found for SMTP server "@ + server
            },
            ConfigErrorModel::MissingEncoder => "no encoder was supplied"@,
        }
    }
}

impl View for ConfigError {
    type V = ConfigErrorModel;

    open spec fn view(&self) -> ConfigErrorModel {
        match self {
            ConfigError::UnresolvedSmtpServer { server, cause } => {
                ConfigErrorModel::UnresolvedSmtpServer { server: server@, cause: cause@ }
            },
            ConfigError::NoSmtpServerAddress { server } => {
                ConfigErrorModel::NoSmtpServerAddress { server: server@ }
            },
            ConfigError::MissingEncoder => ConfigErrorModel::MissingEncoder,
        }
    }
}

impl ConfigError {
    /// A description of the error for a person to read.
    pub fn message(&self) -> (text: String)
        ensures
            text@ == self@.text(),
    {
        match self {
            ConfigError::UnresolvedSmtpServer { server, cause } => {
                let mut text = String::from_str("cannot resolve SMTP server ");
                text.append(server.as_str());
                text.append(": ");
                text.append(cause.as_str());
                text
            },
            ConfigError::NoSmtpServerAddress { server } => {
                let mut text = String::from_str("no address found for SMTP server ");
                text.append(server.as_str());
                text
            },
            ConfigError::MissingEncoder => String::from_str("no encoder was supplied"),
        }
    }
}

/// A log record could not be delivered.
///
/// Failures to construct the message and failures of the transport are not
/// told apart: either way the record is lost, and the error carries the
/// description of what went wrong. Nothing is retried.
#[derive(Clone, Debug, PartialEq, Eq)]
pub struct DeliveryError {
    cause: String,
}

impl DeliveryError {
    /// A delivery error with the given description of its cause.
    pub fn new(cause: String) -> (error: DeliveryError)
        ensures
            error.cause_text() == cause@,
    {
        DeliveryError { cause }
    }

    /// The description of the cause, as a sequence of characters.
    pub closed spec fn cause_text(&self) -> Seq<char> {
        self.cause@
    }

    /// The description of the cause.
    pub fn cause(&self) -> (text: &str)
        ensures
            text@ == self.cause_text(),
    {
        self.cause.as_str()
    }

    /// A description of the error for a person to read.
    pub fn message(&self) -> (text: String)
        ensures
            text@ == "delivery failed: "@ + self.cause_text(),
    {
        let mut text = String::from_str("delivery failed: ");
        text.append(self.cause.as_str());
        text
    }
}

} // verus!
