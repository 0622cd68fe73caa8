//! From the four fields of a message to the message that the transport
//! takes. Addresses are checked here, before anything touches the network;
//! a refused address is a transport failure like any other.

use vstd::prelude::*;
use crate::message::{EmailSendProperties, EmailView};
use crate::outcome::TransportFailure;

verus! {

/// `lettre::message::Mailbox`: a checked address, carried through unread.
#[verifier::external_type_specification]
#[verifier::external_body]
pub struct ExMailbox(lettre::message::Mailbox);

/// `lettre::address::AddressError`: why an address was refused.
#[verifier::external_type_specification]
#[verifier::external_body]
pub struct ExAddressError(lettre::address::AddressError);

/// `lettre::Message`: a built message, handed on to the transport unread.
#[verifier::external_type_specification]
#[verifier::external_body]
pub struct ExMessage(lettre::Message);

/// `lettre::error::Error`: why a message could not be built.
#[verifier::external_type_specification]
#[verifier::external_body]
pub struct ExMessageError(lettre::error::Error);

/// The words with which `lettre` describes an address error.
pub uninterp spec fn address_error_words(error: lettre::address::AddressError) -> Seq<char>;

/// How `lettre` faults `text` as a mailbox: the words of the error with which
/// it refuses the text, `None` where it takes it.
pub uninterp spec fn mailbox_fault(text: Seq<char>) -> Option<Seq<char>>;

/// The mailbox that `lettre` reads out of `text`, where it takes the text.
pub uninterp spec fn parsed_mailbox(text: Seq<char>) -> lettre::message::Mailbox;

/// The words with which `lettre` describes an error in building a message.
pub uninterp spec fn message_error_words(error: lettre::error::Error) -> Seq<char>;

/// How `lettre` faults the building of a message from one sender, one
/// destination, a subject line and a text body: the words of the error with
/// which it refuses to build, `None` where it builds.
pub uninterp spec fn build_fault(
    from: lettre::message::Mailbox,
    to: lettre::message::Mailbox,
    subject: Seq<char>,
    body: Seq<char>,
) -> Option<Seq<char>>;

/// `str::parse` at `lettre::message::Mailbox`. Whether the text is taken,
/// which mailbox it gives and with which error it is refused depend on the
/// text alone.
#[verifier::external_body]
fn parse_mailbox(text: &str) -> (parsed: Result<
    lettre::message::Mailbox,
    lettre::address::AddressError,
>)
    ensures
        match parsed {
            Ok(mailbox) => mailbox_fault(text@) is None && mailbox == parsed_mailbox(text@),
            Err(error) => mailbox_fault(text@) == Some(address_error_words(error)),
        },
{
    text.parse::<lettre::message::Mailbox>()
}

/// `to_string` on `lettre::address::AddressError`: the error's words.
#[verifier::external_body]
fn address_error_text(error: &lettre::address::AddressError) -> (text: String)
    ensures
        text@ == address_error_words(*error),
{
    error.to_string()
}

/// `lettre::message::MessageBuilder::body`, on the builder that
/// `lettre::Message::builder` gives once `from`, `to` and `subject` have set
/// one sender, one destination and the subject line. Whether the message is
/// built, and with which error it is refused, depends on the four arguments
/// alone. The message itself carries the time at which it was built, so
/// nothing is said of what it holds.
#[verifier::external_body]
fn build_message(
    from: lettre::message::Mailbox,
    to: lettre::message::Mailbox,
    subject: &str,
    body: &str,
) -> (built: Result<lettre::Message, lettre::error::Error>)
    ensures
        match built {
            Ok(_) => build_fault(from, to, subject@, body@) is None,
            Err(error) => build_fault(from, to, subject@, body@) == Some(
                message_error_words(error),
            ),
        },
{
    lettre::Message::builder().from(from).to(to).subject(subject).body(body.to_owned())
}

/// `to_string` on `lettre::error::Error`: the error's words.
#[verifier::external_body]
fn message_error_text(error: &lettre::error::Error) -> (text: String)
    ensures
        text@ == message_error_words(*error),
{
    error.to_string()
}

/// The words of the refusal that ends an attempt with these two addresses:
/// the sender's where the sender is refused, else the destination's; `None`
/// where both are taken.
pub open spec fn address_failure(from: Seq<char>, to: Seq<char>) -> Option<Seq<char>> {
    match mailbox_fault(from) {
        Some(words) => Some(words),
        None => mailbox_fault(to),
    }
}

/// The words of the failure in which composing a message ends, `None` where
/// a message comes of it: a refused address first, the sender's before the
/// destination's; with both taken, whatever the build of the message from
/// the two mailboxes, the subject and the body is refused with. Sender and
/// destination, subject and body each go to their own place.
pub open spec fn compose_failure(email: EmailView) -> Option<Seq<char>> {
    match address_failure(email.from, email.to) {
        Some(words) => Some(words),
        None => build_fault(
            parsed_mailbox(email.from),
            parsed_mailbox(email.to),
            email.subject,
            email.body,
        ),
    }
}

/// Checks one address. A text that is taken gives the mailbox read out of
/// it; a refused one gives the failure that carries the refusal's words.
pub fn check_address(text: &str) -> (checked: Result<lettre::message::Mailbox, TransportFailure>)
    ensures
        match checked {
            Ok(mailbox) => mailbox_fault(text@) is None && mailbox == parsed_mailbox(text@),
            Err(failure) => mailbox_fault(text@) == Some(failure@),
        },
{
    match parse_mailbox(text) {
        Ok(mailbox) => Ok(mailbox),
        Err(error) => Err(TransportFailure { description: address_error_text(&error) }),
    }
}

/// What a finished build comes to: the message where there is one, else the
/// failure that carries the build error's words.
pub fn message_or_failure(built: Result<lettre::Message, lettre::error::Error>) -> (composed: Result<
    lettre::Message,
    TransportFailure,
>)
    ensures
        match built {
            Ok(message) => composed == Ok::<lettre::Message, TransportFailure>(message),
            Err(error) => composed is Err && composed->Err_0@ == message_error_words(error),
        },
{
    match built {
        Ok(message) => Ok(message),
        Err(error) => Err(TransportFailure { description: message_error_text(&error) }),
    }
}

/// Builds the message for the transport. The sender's address is checked
/// first, then the destination's; the first one refused ends the attempt with
/// its words as the failure. With both addresses taken, the message is built
/// from the sender's mailbox, the destination's mailbox, the subject and the
/// body, each in its place; a message comes back exactly where that build is
/// not refused, and a refusal is the failure that carries its words.
pub fn compose(email: &EmailSendProperties) -> (composed: Result<lettre::Message, TransportFailure>)
    ensures
        match composed {
            Ok(_) => compose_failure(email@) is None,
            Err(failure) => compose_failure(email@) == Some(failure@),
        },
{
    let from = match check_address(email.from.as_str()) {
        Ok(mailbox) => mailbox,
        Err(failure) => { return Err(failure); },
    };
    let to = match check_address(email.to.as_str()) {
        Ok(mailbox) => mailbox,
        Err(failure) => { return Err(failure); },
    };
    message_or_failure(build_message(from, to, email.subject.as_str(), email.body.as_str()))
}

} // verus!
