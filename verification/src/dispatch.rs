//! The dispatch loop as a state machine. The machine decides; whoever drives
//! it loads the sources and talks to the transport, and hands back what came
//! of it as the next event.

use vstd::prelude::*;
use crate::message::{message_for, EmailSendProperties, EmailView};
use crate::outcome::{delivery_view, outcome_for, outcome_views, DispatchOutcome, OutcomeView, TransportFailure};
use crate::recipient::{recipient_views, Recipient, RecipientView};
use crate::render::{render, Template};
use crate::source::{LoadError, LoadFailure, LoadFailureView, Settings, SettingsView};

verus! {

/// Where a run stands.
#[derive(Debug, Clone, Copy, PartialEq, Eq, Structural)]
pub enum Phase {
    /// Nothing has been loaded.
    Idle,
    /// Recipients and template are in; nothing has been sent.
    Loaded,
    /// Some recipient's send is awaited.
    Dispatching,
    /// The run is over: every recipient has an outcome, or loading failed.
    Done,
}

/// A run as the contracts see it.
pub struct RunView {
    pub settings: SettingsView,
    pub phase: Phase,
    pub recipients: Seq<RecipientView>,
    pub template: Seq<char>,
    pub outcomes: Seq<OutcomeView>,
    pub failure: Option<LoadFailureView>,
}

/// What the driver reports back, as the contracts see it.
pub enum EventView {
    Begin,
    Sources { recipients: Result<Seq<RecipientView>, LoadError>, template: Result<Seq<char>, LoadError> },
    Delivery(Option<Seq<char>>),
}

/// What the driver is asked to do, as the contracts see it.
pub enum ActionView {
    Load { recipient_source: Seq<char>, template_source: Seq<char> },
    Announce { count: nat, source: Seq<char> },
    Send(EmailView),
    Finish,
    Abort(LoadFailureView),
}

/// The run before anything has happened.
pub open spec fn initial(settings: SettingsView) -> RunView {
    RunView {
        settings,
        phase: Phase::Idle,
        recipients: Seq::empty(),
        template: Seq::empty(),
        outcomes: Seq::empty(),
        failure: None,
    }
}

/// What holds of every run that started from `initial`: outcomes never run
/// ahead of the recipients, a send is awaited only while a recipient is
/// left, and a failed load leaves no outcome behind.
pub open spec fn coherent(run: RunView) -> bool {
    &&& run.outcomes.len() <= run.recipients.len()
    &&& run.phase == Phase::Idle ==> run.recipients.len() == 0 && run.failure is None
    &&& run.phase == Phase::Loaded ==> run.outcomes.len() == 0 && run.failure is None
    &&& run.phase == Phase::Dispatching ==> run.outcomes.len() < run.recipients.len()
        && run.failure is None
    &&& run.phase == Phase::Done ==> (run.failure is Some || run.outcomes.len()
        == run.recipients.len())
    &&& run.failure is Some ==> run.outcomes.len() == 0
}

/// The failure that ends a run whose sources were read as given: the
/// recipients' error before the template's, each with the configured name of
/// its source; `None` where both are in.
pub open spec fn load_failure(
    settings: SettingsView,
    recipients: Result<Seq<RecipientView>, LoadError>,
    template: Result<Seq<char>, LoadError>,
) -> Option<LoadFailureView> {
    match (recipients, template) {
        (Err(e), _) => Some(LoadFailureView { error: e, source: settings.recipient_source }),
        (Ok(_), Err(e)) => Some(LoadFailureView { error: e, source: settings.template_source }),
        (Ok(_), Ok(_)) => None,
    }
}

/// The outcome that `event` records in `run`: the answer for the recipient
/// whose turn it is, where the run awaits one; no other event records any.
pub open spec fn recorded(run: RunView, event: EventView) -> Option<OutcomeView> {
    match (run.phase, event) {
        (Phase::Dispatching, EventView::Delivery(delivery)) => Some(
            outcome_for(run.recipients[run.outcomes.len() as int].email, delivery),
        ),
        _ => None,
    }
}

/// The run after `event`. An event that the phase does not wait for changes
/// nothing.
pub open spec fn advance(run: RunView, event: EventView) -> RunView {
    match (run.phase, event) {
        (Phase::Idle, EventView::Sources { recipients, template }) => match load_failure(
            run.settings,
            recipients,
            template,
        ) {
            Some(failure) => RunView { phase: Phase::Done, failure: Some(failure), ..run },
            None => RunView {
                phase: Phase::Loaded,
                recipients: recipients->Ok_0,
                template: template->Ok_0,
                ..run
            },
        },
        (Phase::Loaded, EventView::Begin) => RunView {
            phase: if run.recipients.len() == 0 {
                Phase::Done
            } else {
                Phase::Dispatching
            },
            ..run
        },
        (Phase::Dispatching, EventView::Delivery(delivery)) => {
            RunView {
                phase: if run.outcomes.len() + 1 == run.recipients.len() {
                    Phase::Done
                } else {
                    Phase::Dispatching
                },
                outcomes: run.outcomes.push(recorded(run, event)->Some_0),
                ..run
            }
        },
        _ => run,
    }
}

/// What a run waits for the driver to do.
pub open spec fn pending(run: RunView) -> ActionView {
    match run.phase {
        Phase::Idle => ActionView::Load {
            recipient_source: run.settings.recipient_source,
            template_source: run.settings.template_source,
        },
        Phase::Loaded => ActionView::Announce {
            count: run.recipients.len(),
            source: run.settings.recipient_source,
        },
        Phase::Dispatching => ActionView::Send(
            message_for(run.settings, run.template, run.recipients[run.outcomes.len() as int]),
        ),
        Phase::Done => match run.failure {
            Some(failure) => ActionView::Abort(failure),
            None => ActionView::Finish,
        },
    }
}

/// What the driver reports back to the machine.
#[derive(Debug, PartialEq, Eq)]
pub enum Event {
    /// The driver is ready for the next thing to do.
    Begin,
    /// Both sources have been read, each once.
    Sources { recipients: Result<Vec<Recipient>, LoadError>, template: Result<Template, LoadError> },
    /// The transport has answered for the message that was handed out last.
    Delivery(Result<(), TransportFailure>),
}

impl View for Event {
    type V = EventView;

    open spec fn view(&self) -> EventView {
        match self {
            Event::Begin => EventView::Begin,
            Event::Sources { recipients, template } => EventView::Sources {
                recipients: match recipients {
                    Ok(list) => Ok(recipient_views(list@)),
                    Err(e) => Err(*e),
                },
                template: match template {
                    Ok(text) => Ok(text@),
                    Err(e) => Err(*e),
                },
            },
            Event::Delivery(delivery) => EventView::Delivery(delivery_view(*delivery)),
        }
    }
}

/// What the machine asks the driver to do next.
#[derive(Debug, PartialEq, Eq)]
pub enum Action {
    /// Read both sources and report them with `Event::Sources`.
    Load { recipient_source: String, template_source: String },
    /// Tell the operator how many recipients were loaded from the source of
    /// this name, then `Event::Begin`.
    Announce { count: usize, source: String },
    /// Hand this message to the transport and report its answer with
    /// `Event::Delivery`.
    Send(EmailSendProperties),
    /// Every recipient has its outcome: end the run normally.
    Finish,
    /// Loading failed: end the run with the report of this failure. Nothing
    /// was sent.
    Abort(LoadFailure),
}

impl View for Action {
    type V = ActionView;

    open spec fn view(&self) -> ActionView {
        match self {
            Action::Load { recipient_source, template_source } => ActionView::Load {
                recipient_source: recipient_source@,
                template_source: template_source@,
            },
            Action::Announce { count, source } => ActionView::Announce {
                count: *count as nat,
                source: source@,
            },
            Action::Send(message) => ActionView::Send(message@),
            Action::Finish => ActionView::Finish,
            Action::Abort(failure) => ActionView::Abort(failure@),
        }
    }
}

/// One run of the batch: the settings it was made with, what has been
/// loaded, and the outcomes so far.
pub struct Dispatcher {
    settings: Settings,
    phase: Phase,
    recipients: Vec<Recipient>,
    template: Template,
    outcomes: Vec<DispatchOutcome>,
    failure: Option<LoadFailure>,
}

impl View for Dispatcher {
    type V = RunView;

    closed spec fn view(&self) -> RunView {
        RunView {
            settings: self.settings@,
            phase: self.phase,
            recipients: recipient_views(self.recipients@),
            template: self.template@,
            outcomes: outcome_views(self.outcomes@),
            failure: match self.failure {
                Some(failure) => Some(failure@),
                None => None,
            },
        }
    }
}

impl Dispatcher {
    #[verifier::type_invariant]
    spec fn well_formed(self) -> bool {
        coherent(self@)
    }

    /// A run that has not begun.
    pub fn new(settings: Settings) -> (run: Dispatcher)
        ensures
            run@ == initial(settings@),
            coherent(run@),
    {
        let run = Dispatcher {
            settings,
            phase: Phase::Idle,
            recipients: Vec::new(),
            template: Template { body: String::new() },
            outcomes: Vec::new(),
            failure: None,
        };
        assert(run@.recipients =~= Seq::empty());
        assert(run@.outcomes =~= Seq::empty());
        run
    }

    /// What the run waits for the driver to do. In `Dispatching` this is the
    /// message for the recipient whose turn it is, rendered from the template.
    pub fn action(&self) -> (action: Action)
        ensures
            action@ == pending(self@),
    {
        proof {
            use_type_invariant(self);
        }
        match self.phase {
            Phase::Idle => Action::Load {
                recipient_source: self.settings.recipient_source.clone(),
                template_source: self.settings.template_source.clone(),
            },
            Phase::Loaded => Action::Announce {
                count: self.recipients.len(),
                source: self.settings.recipient_source.clone(),
            },
            Phase::Dispatching => {
                let recipient = &self.recipients[self.outcomes.len()];
                Action::Send(
                    EmailSendProperties {
                        to: recipient.email.clone(),
                        from: self.settings.sender_address.clone(),
                        subject: self.settings.subject.clone(),
                        body: render(&self.template, recipient),
                    },
                )
            },
            Phase::Done => match &self.failure {
                Some(failure) => Action::Abort(
                    LoadFailure { error: failure.error, source: failure.source.clone() },
                ),
                None => Action::Finish,
            },
        }
    }

    /// Takes one event and gives the run after it, what the driver is to do
    /// next, and the outcome that the event recorded, if it recorded one. A
    /// failed send is recorded like a successful one and the run moves on to
    /// the next recipient; an event that the phase does not wait for leaves
    /// the run as it was.
    pub fn step(self, event: Event) -> (next: (Dispatcher, Action, Option<DispatchOutcome>))
        ensures
            next.0@ == advance(self@, event@),
            next.1@ == pending(next.0@),
            match next.2 {
                Some(outcome) => recorded(self@, event@) == Some(outcome@),
                None => recorded(self@, event@) is None,
            },
            coherent(next.0@),
    {
        proof {
            use_type_invariant(&self);
        }
        let ghost before = self@;
        let mut fresh: Option<DispatchOutcome> = None;
        let run = match event {
            Event::Begin => match self.phase {
                Phase::Loaded => {
                    let phase = if self.recipients.len() == 0 {
                        Phase::Done
                    } else {
                        Phase::Dispatching
                    };
                    Dispatcher { phase, ..self }
                },
                _ => self,
            },
            Event::Sources { recipients, template } => match self.phase {
                Phase::Idle => match recipients {
                    Err(error) => {
                        let source = self.settings.recipient_source.clone();
                        Dispatcher {
                            phase: Phase::Done,
                            failure: Some(LoadFailure { error, source }),
                            ..self
                        }
                    },
                    Ok(list) => match template {
                        Err(error) => {
                            let source = self.settings.template_source.clone();
                            Dispatcher {
                                phase: Phase::Done,
                                failure: Some(LoadFailure { error, source }),
                                ..self
                            }
                        },
                        Ok(text) => Dispatcher {
                            phase: Phase::Loaded,
                            recipients: list,
                            template: text,
                            ..self
                        },
                    },
                },
                _ => self,
            },
            Event::Delivery(delivery) => match self.phase {
                Phase::Dispatching => {
                    let at = self.outcomes.len();
                    assert(before.outcomes.len() == at);
                    assert(before.recipients.len() == self.recipients.len());
                    let outcome = DispatchOutcome::of(self.recipients[at].email.as_str(), delivery);
                    fresh = Some(outcome.duplicate());
                    let phase = if at + 1 == self.recipients.len() {
                        Phase::Done
                    } else {
                        Phase::Dispatching
                    };
                    let mut outcomes = self.outcomes;
                    outcomes.push(outcome);
                    assert(outcome_views(outcomes@) =~= before.outcomes.push(outcome@));
                    Dispatcher { phase, outcomes, ..self }
                },
                _ => self,
            },
        };
        proof {
            use_type_invariant(&run);
        }
        let action = run.action();
        (run, action, fresh)
    }

    /// Where the run stands.
    pub fn phase(&self) -> (phase: Phase)
        ensures
            phase == self@.phase,
    {
        self.phase
    }

    /// The outcomes recorded so far, one per recipient attempted, in the
    /// order in which the recipients were loaded.
    pub fn outcomes(&self) -> (outcomes: &Vec<DispatchOutcome>)
        ensures
            outcome_views(outcomes@) == self@.outcomes,
    {
        &self.outcomes
    }

    /// The recipients as they were loaded; empty before that.
    pub fn recipients(&self) -> (recipients: &Vec<Recipient>)
        ensures
            recipient_views(recipients@) == self@.recipients,
    {
        &self.recipients
    }

    /// The failure that ended the run, if loading failed.
    pub fn failure(&self) -> (failure: Option<&LoadFailure>)
        ensures
            match failure {
                Some(f) => self@.failure == Some(f@),
                None => self@.failure is None,
            },
    {
        self.failure.as_ref()
    }
}

/// Every step keeps a run coherent.
pub proof fn lemma_advance_coherent(run: RunView, event: EventView)
    requires
        coherent(run),
    ensures
        coherent(advance(run, event)),
{
}

} // verus!
