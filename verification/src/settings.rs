//! How one setting is resolved: an explicit value, else an environment
//! variable, else a built-in default.

use vstd::prelude::*;
use vstd::string::StringExecFns;

use crate::environment::Environment;

verus! {

/// The name under which this kind of appender is known to a configuration.
pub const DISCOVERY_NAME: &'static str = "log4rs-email";

/// The variable that names the SMTP server, as `host:port`.
pub const SMTP_SERVER_VARIABLE: &'static str = "SMTP_SERVER";

/// The variable that names the recipient. It also stands in for a missing
/// subject.
pub const RECIPIENT_VARIABLE: &'static str = "LOG4RS_EMAIL_RECIPIENT";

/// The variable that names the sender.
pub const SENDER_VARIABLE: &'static str = "LOG4RS_EMAIL_SENDER";

/// The SMTP server where neither a value nor the variable is given.
pub const DEFAULT_SMTP_SERVER: &'static str = "127.0.0.1:25";

/// The recipient where neither a value nor the variable is given.
pub const DEFAULT_RECIPIENT: &'static str = "postmaster@localhost";

/// The subject where neither a value nor the variable is given.
pub const DEFAULT_SUBJECT: &'static str = "Log report from log4rs_email";

/// The sender where neither a value nor the variable is given.
pub const DEFAULT_SENDER: &'static str = "nobody@test.com";

/// The text of an optional string.
pub open spec fn text_of(value: Option<String>) -> Option<Seq<char>> {
    match value {
        Some(text) => Some(text@),
        None => None,
    }
}

/// The value of one setting: the explicit value where there is one, else the
/// value of `variable` where the environment sets it, else `fallback`.
pub open spec fn resolved(
    explicit: Option<Seq<char>>,
    env: Map<Seq<char>, Seq<char>>,
    variable: Seq<char>,
    fallback: Seq<char>,
) -> Seq<char> {
    match explicit {
        Some(value) => value,
        None => if env.contains_key(variable) {
            env[variable]
        } else {
            fallback
        },
    }
}

/// Resolves one setting by the precedence that [`resolved`] states.
pub fn resolve(explicit: &Option<String>, env: &Environment, variable: &str, fallback: &str) -> (value: String)
    ensures
        value@ == resolved(text_of(*explicit), env@, variable@, fallback@),
{
    match explicit {
        Some(value) => value.clone(),
        None => match env.get(variable) {
            Some(value) => value,
            None => String::from_str(fallback),
        },
    }
}

} // verus!
