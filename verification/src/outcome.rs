//! What became of one attempt to send, and the line that reports it.

use vstd::prelude::*;

verus! {

/// The single kind of failure a send can end in. Connection, protocol and
/// address problems all arrive here as a description and nothing more.
#[derive(Debug, Clone, PartialEq, Eq)]
pub struct TransportFailure {
    pub description: String,
}

impl View for TransportFailure {
    type V = Seq<char>;

    open spec fn view(&self) -> Seq<char> {
        self.description@
    }
}

/// The result of one attempt: the address it went to, and whether the
/// transport took the message.
#[derive(Debug, Clone, PartialEq, Eq)]
pub enum DispatchOutcome {
    Sent { email: String },
    Failed { email: String, description: String },
}

/// What a `DispatchOutcome` holds, as text.
pub enum OutcomeView {
    Sent { email: Seq<char> },
    Failed { email: Seq<char>, description: Seq<char> },
}

impl View for DispatchOutcome {
    type V = OutcomeView;

    open spec fn view(&self) -> OutcomeView {
        match self {
            DispatchOutcome::Sent { email } => OutcomeView::Sent { email: email@ },
            DispatchOutcome::Failed { email, description } => OutcomeView::Failed {
                email: email@,
                description: description@,
            },
        }
    }
}

/// The outcomes of a list, each by what it holds, in the list's order.
pub open spec fn outcome_views(list: Seq<DispatchOutcome>) -> Seq<OutcomeView> {
    list.map_values(|o: DispatchOutcome| o@)
}

/// The outcome for the address `email` when the transport answered
/// `delivery`: `None` where it took the message, else the failure's description.
pub open spec fn outcome_for(email: Seq<char>, delivery: Option<Seq<char>>) -> OutcomeView {
    match delivery {
        None => OutcomeView::Sent { email },
        Some(description) => OutcomeView::Failed { email, description },
    }
}

/// A transport's answer as the description of its failure, if it failed.
pub open spec fn delivery_view(delivery: Result<(), TransportFailure>) -> Option<Seq<char>> {
    match delivery {
        Ok(_) => None,
        Err(failure) => Some(failure@),
    }
}

/// The address an outcome is about.
pub open spec fn outcome_email(outcome: OutcomeView) -> Seq<char> {
    match outcome {
        OutcomeView::Sent { email } => email,
        OutcomeView::Failed { email, .. } => email,
    }
}

/// The line that reports an outcome.
pub open spec fn report_of(outcome: OutcomeView) -> Seq<char> {
    match outcome {
        OutcomeView::Sent { email } => "Email sent to "@ + email,
        OutcomeView::Failed { email, description } => "Error sending to "@ + email + ": "@
            + description,
    }
}

impl DispatchOutcome {
    /// The outcome for one recipient's address, from what the transport answered.
    pub fn of(email: &str, delivery: Result<(), TransportFailure>) -> (outcome: DispatchOutcome)
        ensures
            outcome@ == outcome_for(email@, delivery_view(delivery)),
    {
        match delivery {
            Ok(_) => DispatchOutcome::Sent { email: email.to_owned() },
            Err(failure) => DispatchOutcome::Failed {
                email: email.to_owned(),
                description: failure.description,
            },
        }
    }

    /// A second outcome that holds what this one holds.
    pub fn duplicate(&self) -> (copy: DispatchOutcome)
        ensures
            copy@ == self@,
    {
        match self {
            DispatchOutcome::Sent { email } => DispatchOutcome::Sent { email: email.clone() },
            DispatchOutcome::Failed { email, description } => DispatchOutcome::Failed {
                email: email.clone(),
                description: description.clone(),
            },
        }
    }

    /// The address this outcome is about.
    pub fn email(&self) -> (email: &str)
        ensures
            email@ == outcome_email(self@),
    {
        match self {
            DispatchOutcome::Sent { email } => email.as_str(),
            DispatchOutcome::Failed { email, .. } => email.as_str(),
        }
    }

    /// Whether the transport took the message.
    pub fn is_sent(&self) -> (sent: bool)
        ensures
            sent == (self@ is Sent),
    {
        match self {
            DispatchOutcome::Sent { .. } => true,
            DispatchOutcome::Failed { .. } => false,
        }
    }

    /// The line for the operator: which address, and on failure why.
    pub fn report_line(&self) -> (line: String)
        ensures
            line@ == report_of(self@),
    {
        match self {
            DispatchOutcome::Sent { email } => {
                let mut line = "Email sent to ".to_owned();
                line.append(email.as_str());
                line
            },
            DispatchOutcome::Failed { email, description } => {
                let mut line = "Error sending to ".to_owned();
                line.append(email.as_str());
                line.append(": ");
                line.append(description.as_str());
                line
            },
        }
    }
}

} // verus!
