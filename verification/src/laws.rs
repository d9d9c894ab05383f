//! What holds of every builder, environment and rendered record.

use vstd::prelude::*;
use vstd::utf8::{decode_utf8_encode_utf8, encode_utf8, valid_utf8};

use crate::address::SocketAddress;
use crate::appender::{AppenderModel, BuilderModel};
use crate::mail::body_text;
use crate::settings::{
    DEFAULT_RECIPIENT, DEFAULT_SENDER, DEFAULT_SMTP_SERVER, DEFAULT_SUBJECT, RECIPIENT_VARIABLE,
    SENDER_VARIABLE, SMTP_SERVER_VARIABLE,
};

verus! {

/// A setting that is given explicitly is used as it stands, whatever the
/// environment holds: the appender, where one is constructed, has the given
/// recipient, subject and sender, and the server that is resolved is the
/// given one.
pub proof fn explicit_value_is_used<E>(
    builder: BuilderModel<E>,
    env: Map<Seq<char>, Seq<char>>,
    addresses: Result<Seq<SocketAddress>, Seq<char>>,
)
    ensures
        builder.smtp_server matches Some(value) ==> builder.smtp_server_name(env) == value,
        builder.construct(env, addresses) matches Ok(appender) ==> {
            &&& builder.recipient matches Some(value) ==> appender.recipient == value
            &&& builder.subject matches Some(value) ==> appender.subject == value
            &&& builder.sender matches Some(value) ==> appender.sender == value
        },
{
}

/// A setting that is not given takes the value of its environment variable
/// where that is set. A missing subject goes by the recipient's variable.
pub proof fn variable_fills_missing_setting<E>(
    builder: BuilderModel<E>,
    env: Map<Seq<char>, Seq<char>>,
    addresses: Result<Seq<SocketAddress>, Seq<char>>,
)
    ensures
        builder.smtp_server is None && env.contains_key(SMTP_SERVER_VARIABLE@)
            ==> builder.smtp_server_name(env) == env[SMTP_SERVER_VARIABLE@],
        builder.construct(env, addresses) matches Ok(appender) ==> {
            &&& builder.recipient is None && env.contains_key(RECIPIENT_VARIABLE@)
                ==> appender.recipient == env[RECIPIENT_VARIABLE@]
            &&& builder.subject is None && env.contains_key(RECIPIENT_VARIABLE@)
                ==> appender.subject == env[RECIPIENT_VARIABLE@]
            &&& builder.sender is None && env.contains_key(SENDER_VARIABLE@)
                ==> appender.sender == env[SENDER_VARIABLE@]
        },
{
}

/// A setting that is neither given nor set in the environment takes its
/// built-in default.
pub proof fn default_fills_unset_setting<E>(
    builder: BuilderModel<E>,
    env: Map<Seq<char>, Seq<char>>,
    addresses: Result<Seq<SocketAddress>, Seq<char>>,
)
    ensures
        builder.smtp_server is None && !env.contains_key(SMTP_SERVER_VARIABLE@)
            ==> builder.smtp_server_name(env) == DEFAULT_SMTP_SERVER@,
        builder.construct(env, addresses) matches Ok(appender) ==> {
            &&& builder.recipient is None && !env.contains_key(RECIPIENT_VARIABLE@)
                ==> appender.recipient == DEFAULT_RECIPIENT@
            &&& builder.subject is None && !env.contains_key(RECIPIENT_VARIABLE@)
                ==> appender.subject == DEFAULT_SUBJECT@
            &&& builder.sender is None && !env.contains_key(SENDER_VARIABLE@)
                ==> appender.sender == DEFAULT_SENDER@
        },
{
}

/// Without an encoder no appender is constructed, whatever the other
/// settings, the environment and the resolver's answer are.
pub proof fn no_encoder_no_appender<E>(
    builder: BuilderModel<E>,
    env: Map<Seq<char>, Seq<char>>,
    addresses: Result<Seq<SocketAddress>, Seq<char>>,
)
    requires
        builder.encoder is None,
    ensures
        builder.construct(env, addresses) is Err,
{
}

/// An encoder and one address are all that construction needs: with them
/// an appender is constructed, which holds that encoder and uses the first
/// address found.
pub proof fn encoder_and_address_suffice<E>(
    builder: BuilderModel<E>,
    env: Map<Seq<char>, Seq<char>>,
    found: Seq<SocketAddress>,
)
    requires
        builder.encoder is Some,
        found.len() > 0,
    ensures
        builder.construct(env, Ok(found)) matches Ok(appender) && appender.smtp_server == found[0]
            && appender.encoder == builder.encoder->0,
{
}

/// An appender keeps nothing from one record to the next: its messages
/// differ in their bodies only, and the body of each is decided by its own
/// record alone.
pub proof fn messages_do_not_mix<E>(appender: AppenderModel<E>, first: Seq<u8>, second: Seq<u8>)
    ensures
        appender.message_for(first).to == appender.message_for(second).to,
        appender.message_for(first).from == appender.message_for(second).from,
        appender.message_for(first).subject == appender.message_for(second).subject,
        appender.message_for(first).body == body_text(first),
        appender.message_for(second).body == body_text(second),
{
}

/// The body of a message is the rendered record, byte for byte: encoded in
/// UTF-8 it gives back the bytes that the encoder wrote, provided these
/// were valid UTF-8. Nothing is put before or after them.
pub proof fn body_is_rendered_record(rendered: Seq<u8>)
    requires
        valid_utf8(rendered),
    ensures
        encode_utf8(body_text(rendered)) == rendered,
{
    decode_utf8_encode_utf8(rendered);
}

} // verus!
