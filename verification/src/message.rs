//! The four fields that the core hands to the mail transport.

use vstd::prelude::*;
use crate::recipient::RecipientView;
use crate::render::rendered;
use crate::source::SettingsView;

verus! {

/// One message as the transport takes it: destination, sender, subject line
/// and rendered body.
#[derive(Debug, Clone, PartialEq, Eq)]
pub struct EmailSendProperties {
    pub to: String,
    pub from: String,
    pub subject: String,
    pub body: String,
}

/// What `EmailSendProperties` hold, as text.
pub struct EmailView {
    pub to: Seq<char>,
    pub from: Seq<char>,
    pub subject: Seq<char>,
    pub body: Seq<char>,
}

impl View for EmailSendProperties {
    type V = EmailView;

    open spec fn view(&self) -> EmailView {
        EmailView { to: self.to@, from: self.from@, subject: self.subject@, body: self.body@ }
    }
}

/// The message that a run with `settings` and `template` owes to `recipient`:
/// addressed to the recipient, sent from the configured sender under the
/// configured subject, with the template rendered for the recipient's name.
pub open spec fn message_for(
    settings: SettingsView,
    template: Seq<char>,
    recipient: RecipientView,
) -> EmailView {
    EmailView {
        to: recipient.email,
        from: settings.sender_address,
        subject: settings.subject,
        body: rendered(template, recipient.name),
    }
}

} // verus!
