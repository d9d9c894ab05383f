//! The appender and its builder: staged settings, their resolution, and
//! construction.

use vstd::prelude::*;

use crate::address::SocketAddress;
use crate::environment::Environment;
use crate::error::{ConfigError, ConfigErrorModel, DeliveryError};
use crate::mail::{
    addresses_accepted, body_text, build_email, decode_lossy, delivery, EmailMessage,
    MessageModel,
};
use crate::settings::{
    resolve, resolved, text_of, DEFAULT_RECIPIENT, DEFAULT_SENDER, DEFAULT_SMTP_SERVER,
    DEFAULT_SUBJECT, RECIPIENT_VARIABLE, SENDER_VARIABLE, SMTP_SERVER_VARIABLE,
};

verus! {

/// An appender that mails every log record it is handed.
///
/// `E` is the encoder that renders a record into bytes. The appender owns
/// it and hands it out by reference only. Every setting is resolved when
/// the appender is built and none changes afterwards: no method takes the
/// appender by mutable reference.
#[derive(Debug)]
pub struct EmailAppender<E> {
    encoder: E,
    smtp_server: SocketAddress,
    recipient: String,
    subject: String,
    sender: String,
}

/// What an [`EmailAppender`] holds, with texts as sequences of characters.
pub struct AppenderModel<E> {
    pub encoder: E,
    pub smtp_server: SocketAddress,
    pub recipient: Seq<char>,
    pub subject: Seq<char>,
    pub sender: Seq<char>,
}

impl<E> View for EmailAppender<E> {
    type V = AppenderModel<E>;

    closed spec fn view(&self) -> AppenderModel<E> {
        AppenderModel {
            encoder: self.encoder,
            smtp_server: self.smtp_server,
            recipient: self.recipient@,
            subject: self.subject@,
            sender: self.sender@,
        }
    }
}

impl<E> AppenderModel<E> {
    /// The message for a record that the encoder has rendered into
    /// `rendered`: to the appender's recipient, from its sender, under its
    /// subject, with the rendered text as the body.
    pub open spec fn message_for(self, rendered: Seq<u8>) -> MessageModel {
        MessageModel {
            to: self.recipient,
            from: self.sender,
            subject: self.subject,
            body: body_text(rendered),
        }
    }
}

impl<E> EmailAppender<E> {
    /// A builder on which nothing is set yet.
    pub fn builder() -> (builder: EmailAppenderBuilder<E>)
        ensures
            builder@.encoder is None,
            builder@.smtp_server is None,
            builder@.recipient is None,
            builder@.sender is None,
            builder@.subject is None,
    {
        EmailAppenderBuilder {
            encoder: None,
            smtp_server: None,
            recipient: None,
            subject: None,
            sender: None,
        }
    }

    /// The encoder that renders the records.
    pub fn encoder(&self) -> (encoder: &E)
        ensures
            *encoder == self@.encoder,
    {
        &self.encoder
    }

    /// The address of the SMTP server.
    pub fn smtp_server(&self) -> (address: SocketAddress)
        ensures
            address == self@.smtp_server,
    {
        self.smtp_server
    }

    /// The recipient of every message.
    pub fn recipient(&self) -> (text: &str)
        ensures
            text@ == self@.recipient,
    {
        self.recipient.as_str()
    }

    /// The subject of every message.
    pub fn subject(&self) -> (text: &str)
        ensures
            text@ == self@.subject,
    {
        self.subject.as_str()
    }

    /// The sender of every message.
    pub fn sender(&self) -> (text: &str)
        ensures
            text@ == self@.sender,
    {
        self.sender.as_str()
    }

    /// The message for one record, given the bytes that the encoder
    /// rendered it into. Recipient, sender and subject are the appender's;
    /// the body is the rendered text and nothing else.
    pub fn message(&self, rendered: &[u8]) -> (message: EmailMessage)
        ensures
            message@ == self@.message_for(rendered@),
    {
        EmailMessage {
            to: self.recipient.clone(),
            from: self.sender.clone(),
            subject: self.subject.clone(),
            body: decode_lossy(rendered),
        }
    }

    /// The email for one record, built by `lettre_email` from
    /// [`Self::message`] and ready to be sent to [`Self::smtp_server`], or
    /// the delivery error where it builds none. Which of the two it is
    /// depends on the appender's recipient and sender, never on the record.
    pub fn prepare(&self, rendered: &[u8]) -> (result: Result<lettre_email::Email, DeliveryError>)
        ensures
            result is Ok <==> addresses_accepted(self@.recipient, self@.sender),
    {
        let message = self.message(rendered);
        delivery(build_email(&message))
    }

    /// Does nothing: every record is delivered in full when it is
    /// appended, so nothing is ever left to flush.
    pub fn flush(&self) {
    }
}

/// The text settings of an appender as a configuration file states them.
/// The encoder, which a configuration describes by its kind, is handed to
/// [`EmailAppenderBuilder::from_config`] once it has been made.
#[derive(Clone, Debug, Default, PartialEq, Eq)]
pub struct EmailAppenderConfig {
    pub smtp_server: Option<String>,
    pub recipient: Option<String>,
    pub subject: Option<String>,
    pub sender: Option<String>,
}

/// The settings of an appender while they are collected: each may be
/// missing, and none is interpreted yet.
pub struct EmailAppenderBuilder<E> {
    encoder: Option<E>,
    smtp_server: Option<String>,
    recipient: Option<String>,
    sender: Option<String>,
    subject: Option<String>,
}

/// What an [`EmailAppenderBuilder`] holds, with texts as sequences of
/// characters.
pub struct BuilderModel<E> {
    pub encoder: Option<E>,
    pub smtp_server: Option<Seq<char>>,
    pub recipient: Option<Seq<char>>,
    pub sender: Option<Seq<char>>,
    pub subject: Option<Seq<char>>,
}

impl<E> View for EmailAppenderBuilder<E> {
    type V = BuilderModel<E>;

    closed spec fn view(&self) -> BuilderModel<E> {
        BuilderModel {
            encoder: self.encoder,
            smtp_server: text_of(self.smtp_server),
            recipient: text_of(self.recipient),
            sender: text_of(self.sender),
            subject: text_of(self.subject),
        }
    }
}

impl<E> BuilderModel<E> {
    /// The name of the SMTP server, which is resolved to an address before
    /// construction.
    pub open spec fn smtp_server_name(self, env: Map<Seq<char>, Seq<char>>) -> Seq<char> {
        resolved(self.smtp_server, env, SMTP_SERVER_VARIABLE@, DEFAULT_SMTP_SERVER@)
    }

    /// The recipient of the appender's messages.
    pub open spec fn resolved_recipient(self, env: Map<Seq<char>, Seq<char>>) -> Seq<char> {
        resolved(self.recipient, env, RECIPIENT_VARIABLE@, DEFAULT_RECIPIENT@)
    }

    /// The subject of the appender's messages. A missing subject is taken
    /// from the recipient's variable: the two share it, so that where only
    /// that variable is set every message has the recipient's address for
    /// its subject. Whether a variable of its own was ever meant is open;
    /// the shared one is what configurations in use go by.
    pub open spec fn resolved_subject(self, env: Map<Seq<char>, Seq<char>>) -> Seq<char> {
        resolved(self.subject, env, RECIPIENT_VARIABLE@, DEFAULT_SUBJECT@)
    }

    /// The sender of the appender's messages.
    pub open spec fn resolved_sender(self, env: Map<Seq<char>, Seq<char>>) -> Seq<char> {
        resolved(self.sender, env, SENDER_VARIABLE@, DEFAULT_SENDER@)
    }

    /// The outcome of construction. `addresses` is what resolving
    /// [`Self::smtp_server_name`] gave: the addresses found, or the
    /// resolver's complaint. The server is looked at before the encoder.
    pub open spec fn construct(
        self,
        env: Map<Seq<char>, Seq<char>>,
        addresses: Result<Seq<SocketAddress>, Seq<char>>,
    ) -> Result<AppenderModel<E>, ConfigErrorModel> {
        match addresses {
            Err(cause) => Err(
                ConfigErrorModel::UnresolvedSmtpServer { server: self.smtp_server_name(env), cause },
            ),
            Ok(found) => if found.len() == 0 {
                Err(ConfigErrorModel::NoSmtpServerAddress { server: self.smtp_server_name(env) })
            } else {
                match self.encoder {
                    None => Err(ConfigErrorModel::MissingEncoder),
                    Some(encoder) => Ok(
                        AppenderModel {
                            encoder,
                            smtp_server: found[0],
                            recipient: self.resolved_recipient(env),
                            subject: self.resolved_subject(env),
                            sender: self.resolved_sender(env),
                        },
                    ),
                }
            },
        }
    }
}

/// What a resolver's answer says, as the contracts read it.
pub open spec fn answer_of(addresses: Result<Vec<SocketAddress>, String>) -> Result<
    Seq<SocketAddress>,
    Seq<char>,
> {
    match addresses {
        Ok(found) => Ok(found@),
        Err(cause) => Err(cause@),
    }
}

/// What the result of construction says, as the contracts read it.
pub open spec fn outcome_of<E>(result: Result<EmailAppender<E>, ConfigError>) -> Result<
    AppenderModel<E>,
    ConfigErrorModel,
> {
    match result {
        Ok(appender) => Ok(appender@),
        Err(error) => Err(error@),
    }
}

impl<E> EmailAppenderBuilder<E> {
    /// The builder for an appender that a configuration declares: the
    /// configuration's texts as they stand, and the encoder made from its
    /// encoder entry, if it has one.
    pub fn from_config(config: EmailAppenderConfig, encoder: Option<E>) -> (builder: Self)
        ensures
            builder@ == (BuilderModel {
                encoder,
                smtp_server: text_of(config.smtp_server),
                recipient: text_of(config.recipient),
                sender: text_of(config.sender),
                subject: text_of(config.subject),
            }),
    {
        EmailAppenderBuilder {
            encoder,
            smtp_server: config.smtp_server,
            recipient: config.recipient,
            sender: config.sender,
            subject: config.subject,
        }
    }

    /// Sets the encoder that renders each log record.
    pub fn encoder(self, encoder: E) -> (builder: Self)
        ensures
            builder@ == (BuilderModel { encoder: Some(encoder), ..self@ }),
    {
        EmailAppenderBuilder { encoder: Some(encoder), ..self }
    }

    /// Sets the SMTP server, as `host:port`.
    pub fn smtp_server(self, smtp_server: String) -> (builder: Self)
        ensures
            builder@ == (BuilderModel { smtp_server: Some(smtp_server@), ..self@ }),
    {
        EmailAppenderBuilder { smtp_server: Some(smtp_server), ..self }
    }

    /// Sets the recipient of the messages.
    pub fn recipient(self, recipient: String) -> (builder: Self)
        ensures
            builder@ == (BuilderModel { recipient: Some(recipient@), ..self@ }),
    {
        EmailAppenderBuilder { recipient: Some(recipient), ..self }
    }

    /// Sets the subject of the messages.
    pub fn subject(self, subject: String) -> (builder: Self)
        ensures
            builder@ == (BuilderModel { subject: Some(subject@), ..self@ }),
    {
        EmailAppenderBuilder { subject: Some(subject), ..self }
    }

    /// The name of the SMTP server that has to be resolved before
    /// [`Self::build`]: the explicit one, else the environment's, else the
    /// default.
    pub fn smtp_server_name(&self, env: &Environment) -> (name: String)
        ensures
            name@ == self@.smtp_server_name(env@),
    {
        resolve(&self.smtp_server, env, SMTP_SERVER_VARIABLE, DEFAULT_SMTP_SERVER)
    }

    /// Constructs the appender.
    ///
    /// `addresses` is the outcome of resolving [`Self::smtp_server_name`]:
    /// the socket addresses found, in the resolver's order, or its
    /// complaint. The first address is the one used. Construction fails
    /// where resolution failed or found nothing, and where no encoder was
    /// set; every other setting has a default.
    pub fn build(
        self,
        env: &Environment,
        addresses: Result<Vec<SocketAddress>, String>,
    ) -> (result: Result<EmailAppender<E>, ConfigError>)
        ensures
            outcome_of(result) == self@.construct(env@, answer_of(addresses)),
    {
        let recipient = resolve(&self.recipient, env, RECIPIENT_VARIABLE, DEFAULT_RECIPIENT);
        let subject = resolve(&self.subject, env, RECIPIENT_VARIABLE, DEFAULT_SUBJECT);
        let smtp_server = match addresses {
            Err(cause) => {
                let server = self.smtp_server_name(env);
                return Err(ConfigError::UnresolvedSmtpServer { server, cause });
            },
            Ok(found) => {
                if found.len() == 0 {
                    let server = self.smtp_server_name(env);
                    return Err(ConfigError::NoSmtpServerAddress { server });
                }
                found[0]
            },
        };
        let sender = resolve(&self.sender, env, SENDER_VARIABLE, DEFAULT_SENDER);
        match self.encoder {
            None => Err(ConfigError::MissingEncoder),
            Some(encoder) => Ok(EmailAppender { encoder, smtp_server, recipient, subject, sender }),
        }
    }
}

} // verus!
