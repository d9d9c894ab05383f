//! An appender for log4rs that mails each log record it is handed.
//!
//! The library holds the rules of the appender: how its settings are
//! resolved from explicit values, environment variables and built-in
//! defaults, when construction fails, and which message is composed for a
//! rendered log record. Reading the process environment, resolving host
//! names, rendering records and talking SMTP are left to the caller.

pub mod address;
pub mod appender;
pub mod environment;
pub mod error;
pub mod laws;
pub mod mail;
pub mod settings;

pub use address::SocketAddress;
pub use appender::{EmailAppender, EmailAppenderBuilder, EmailAppenderConfig};
pub use environment::Environment;
pub use error::{ConfigError, DeliveryError};
pub use mail::EmailMessage;

use vstd::prelude::*;

verus! {

/// A record with one text field.
#[derive(Clone, Debug, PartialEq, Eq)]
pub struct Foo {
    x: String,
}

impl Foo {
    /// The record that holds `x`.
    pub fn new(x: String) -> (foo: Foo)
        ensures
            foo.text() == x@,
    {
        Foo { x }
    }

    /// The text that the record holds, as a sequence of characters.
    pub closed spec fn text(&self) -> Seq<char> {
        self.x@
    }

    /// The text that the record holds.
    pub fn x(&self) -> (text: &str)
        ensures
            text@ == self.text(),
    {
        self.x.as_str()
    }
}

} // verus!
