//! The message that a record becomes, and the calls that turn it into an
//! email of `lettre_email`.

use vstd::prelude::*;
use vstd::utf8::{decode_utf8, valid_utf8};

use crate::error::DeliveryError;

verus! {

/// `lettre_email::Email`, an email ready to be sent. Nothing of its
/// content is known to the proofs.
#[verifier::external_type_specification]
#[verifier::external_body]
pub struct ExEmail(lettre_email::Email);

/// `lettre_email::error::Error`, the reason why an email was not built.
#[verifier::external_type_specification]
#[verifier::external_body]
pub struct ExEmailError(lettre_email::error::Error);

/// The text that `String::from_utf8_lossy` makes of a sequence of bytes.
pub uninterp spec fn lossy_decoding(bytes: Seq<u8>) -> Seq<char>;

/// Whether `lettre_email` builds an email for this recipient and this
/// sender: it refuses an address that it does not take for an email
/// address.
pub uninterp spec fn addresses_accepted(to: Seq<char>, from: Seq<char>) -> bool;

/// The body of the message for a rendered record: the text that the bytes
/// encode in UTF-8 and, where they are not valid UTF-8, that text with each
/// invalid sequence replaced.
pub open spec fn body_text(rendered: Seq<u8>) -> Seq<char> {
    if valid_utf8(rendered) {
        decode_utf8(rendered)
    } else {
        lossy_decoding(rendered)
    }
}

/// A plain-text message: one recipient, one sender, a subject and a body.
#[derive(Clone, Debug, PartialEq, Eq)]
pub struct EmailMessage {
    pub to: String,
    pub from: String,
    pub subject: String,
    pub body: String,
}

/// What an [`EmailMessage`] holds, with texts as sequences of characters.
pub struct MessageModel {
    pub to: Seq<char>,
    pub from: Seq<char>,
    pub subject: Seq<char>,
    pub body: Seq<char>,
}

impl View for EmailMessage {
    type V = MessageModel;

    open spec fn view(&self) -> MessageModel {
        MessageModel {
            to: self.to@,
            from: self.from@,
            subject: self.subject@,
            body: self.body@,
        }
    }
}

/// Calls `String::from_utf8_lossy`, which never fails. Trusted: the result
/// is a function of the bytes alone, and bytes that are valid UTF-8 are
/// decoded as they stand.
#[verifier::external_body]
pub(crate) fn decode_lossy(bytes: &[u8]) -> (text: String)
    ensures
        text@ == lossy_decoding(bytes@),
        valid_utf8(bytes@) ==> text@ == decode_utf8(bytes@),
{
    String::from_utf8_lossy(bytes).into_owned()
}

/// Calls the builder of `lettre_email::Email` with the message's recipient,
/// sender, subject and plain-text body. Trusted: whether an email comes
/// back depends on the recipient and the sender alone, not on subject,
/// body, time or chance. Of the email itself, which also holds the date and
/// a fresh message id, nothing is claimed.
#[verifier::external_body]
pub(crate) fn build_email(message: &EmailMessage) -> (built: Result<
    lettre_email::Email,
    lettre_email::error::Error,
>)
    ensures
        built is Ok <==> addresses_accepted(message@.to, message@.from),
{
    lettre_email::Email::builder()
        .to(message.to.clone())
        .from(message.from.clone())
        .subject(message.subject.clone())
        .text(message.body.clone())
        .build()
}

/// Calls `to_string` on an error of `lettre_email`, for its description.
/// Nothing is claimed of the text.
#[verifier::external_body]
pub(crate) fn error_text(error: &lettre_email::error::Error) -> (text: String) {
    error.to_string()
}

/// What becomes of a record once `lettre_email` has answered: the email
/// where it built one, else a delivery error that describes the refusal.
pub fn delivery(built: Result<lettre_email::Email, lettre_email::error::Error>) -> (result: Result<
    lettre_email::Email,
    DeliveryError,
>)
    ensures
        built matches Ok(email) ==> result == Ok::<lettre_email::Email, DeliveryError>(email),
        built is Err ==> result is Err,
{
    match built {
        Ok(email) => Ok(email),
        Err(error) => Err(DeliveryError::new(error_text(&error))),
    }
}

} // verus!
