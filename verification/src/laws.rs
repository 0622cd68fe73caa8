//! What holds of whole runs: one outcome per recipient and in order, a failed
//! send that touches no other recipient, and a failed load that sends nothing.

use vstd::prelude::*;
use crate::dispatch::{
    advance, coherent, load_failure, pending, recorded, ActionView, EventView, Phase, RunView,
};
use crate::message::message_for;
use crate::outcome::outcome_for;
use crate::recipient::RecipientView;
use crate::source::LoadError;

verus! {

/// The run after the events of `events`, taken in order.
pub open spec fn advance_all(run: RunView, events: Seq<EventView>) -> RunView
    decreases events.len(),
{
    if events.len() == 0 {
        run
    } else {
        advance(advance_all(run, events.drop_last()), events.last())
    }
}

/// The transport's answers as the events that report them. An answer is
/// `None` where the message was taken, else the failure's description.
pub open spec fn delivery_events(answers: Seq<Option<Seq<char>>>) -> Seq<EventView> {
    answers.map_values(|answer: Option<Seq<char>>| EventView::Delivery(answer))
}

/// A loaded run driven to its end: the dispatch begins, and the transport
/// answers `answers[i]` for the `i`-th message.
pub open spec fn dispatched(run: RunView, answers: Seq<Option<Seq<char>>>) -> RunView {
    advance_all(advance(run, EventView::Begin), delivery_events(answers))
}

/// Whatever happens to a coherent run, it stays coherent.
pub proof fn lemma_advance_all_coherent(run: RunView, events: Seq<EventView>)
    requires
        coherent(run),
    ensures
        coherent(advance_all(run, events)),
    decreases events.len(),
{
    if events.len() > 0 {
        lemma_advance_all_coherent(run, events.drop_last());
    }
}

/// A run that awaits a send and gets as many answers as it has recipients
/// left, or fewer: each answer becomes the outcome of the next recipient,
/// earlier outcomes stay, and the run is done exactly when none is left.
pub proof fn lemma_answers_become_outcomes(run: RunView, answers: Seq<Option<Seq<char>>>)
    requires
        coherent(run),
        run.phase == Phase::Dispatching,
        run.outcomes.len() + answers.len() <= run.recipients.len(),
    ensures
        ({
            let end = advance_all(run, delivery_events(answers));
            let done = run.outcomes.len();
            &&& end.settings == run.settings
            &&& end.recipients == run.recipients
            &&& end.template == run.template
            &&& end.failure is None
            &&& end.outcomes.len() == done + answers.len()
            &&& end.phase == if end.outcomes.len() == run.recipients.len() {
                Phase::Done
            } else {
                Phase::Dispatching
            }
            &&& forall|i: int| 0 <= i < done ==> end.outcomes[i] == run.outcomes[i]
            &&& forall|i: int|
                done <= i < done + answers.len() ==> #[trigger] end.outcomes[i] == outcome_for(
                    run.recipients[i].email,
                    answers[i - done],
                )
        }),
    decreases answers.len(),
{
    if answers.len() > 0 {
        let earlier = answers.drop_last();
        assert(delivery_events(answers).drop_last() =~= delivery_events(earlier));
        assert(delivery_events(answers).last() == EventView::Delivery(answers.last()));
        lemma_answers_become_outcomes(run, earlier);
    }
}

/// A loaded run with N recipients, driven with one answer per recipient,
/// ends with exactly N outcomes in the recipients' order: the `i`-th outcome
/// is about the `i`-th recipient's address and says what the transport
/// answered for it.
pub proof fn lemma_one_outcome_per_recipient(run: RunView, answers: Seq<Option<Seq<char>>>)
    requires
        coherent(run),
        run.phase == Phase::Loaded,
        answers.len() == run.recipients.len(),
    ensures
        ({
            let end = dispatched(run, answers);
            &&& end.phase == Phase::Done
            &&& end.failure is None
            &&& pending(end) == ActionView::Finish
            &&& end.outcomes.len() == run.recipients.len()
            &&& forall|i: int|
                0 <= i < run.recipients.len() ==> #[trigger] end.outcomes[i] == outcome_for(
                    run.recipients[i].email,
                    answers[i],
                )
        }),
{
    let begun = advance(run, EventView::Begin);
    if run.recipients.len() == 0 {
        assert(delivery_events(answers).len() == 0);
    } else {
        lemma_answers_become_outcomes(begun, answers);
    }
}

/// While a send is awaited, the message handed out is the one owed to the
/// recipient whose turn it is, whatever the transport answered before.
pub proof fn lemma_each_recipient_is_attempted(
    run: RunView,
    answers: Seq<Option<Seq<char>>>,
)
    requires
        coherent(run),
        run.phase == Phase::Loaded,
        answers.len() < run.recipients.len(),
    ensures
        pending(dispatched(run, answers)) == ActionView::Send(
            message_for(run.settings, run.template, run.recipients[answers.len() as int]),
        ),
{
    lemma_answers_become_outcomes(advance(run, EventView::Begin), answers);
}

/// A failed send is isolated: what the transport answers for one recipient
/// decides that recipient's outcome and nothing else. Two runs over the same
/// recipients whose answers agree for recipient `j` give `j` the same outcome,
/// however the other sends went.
pub proof fn lemma_failure_is_isolated(
    run: RunView,
    answers: Seq<Option<Seq<char>>>,
    others: Seq<Option<Seq<char>>>,
    j: int,
)
    requires
        coherent(run),
        run.phase == Phase::Loaded,
        answers.len() == run.recipients.len(),
        others.len() == run.recipients.len(),
        0 <= j < run.recipients.len(),
        answers[j] == others[j],
    ensures
        dispatched(run, answers).outcomes[j] == dispatched(run, others).outcomes[j],
        dispatched(run, answers).outcomes[j] == outcome_for(run.recipients[j].email, answers[j]),
{
    lemma_one_outcome_per_recipient(run, answers);
    lemma_one_outcome_per_recipient(run, others);
}

/// One answer, one step: a failure and a success leave the run in the same
/// phase, waiting for the same next action. They differ in the outcome that
/// is recorded and in nothing else.
pub proof fn lemma_failure_does_not_stop_the_run(
    run: RunView,
    answer: Option<Seq<char>>,
    other: Option<Seq<char>>,
)
    requires
        coherent(run),
        run.phase == Phase::Dispatching,
    ensures
        ({
            let a = advance(run, EventView::Delivery(answer));
            let b = advance(run, EventView::Delivery(other));
            &&& a.phase == b.phase
            &&& pending(a) == pending(b)
            &&& a.outcomes.drop_last() == run.outcomes
            &&& b.outcomes.drop_last() == run.outcomes
        }),
{
    let a = advance(run, EventView::Delivery(answer));
    let b = advance(run, EventView::Delivery(other));
    assert(a.outcomes.drop_last() =~= run.outcomes);
    assert(b.outcomes.drop_last() =~= run.outcomes);
}

/// A load that fails is fatal: the run is done at once, and whatever events
/// follow, it never asks for a send and never records an outcome.
pub proof fn lemma_failed_load_sends_nothing(
    run: RunView,
    recipients: Result<Seq<RecipientView>, LoadError>,
    template: Result<Seq<char>, LoadError>,
    later: Seq<EventView>,
)
    requires
        coherent(run),
        run.phase == Phase::Idle,
        recipients is Err || template is Err,
    ensures
        ({
            let end = advance_all(advance(run, EventView::Sources { recipients, template }), later);
            &&& end.phase == Phase::Done
            &&& end.failure == load_failure(run.settings, recipients, template)
            &&& end.failure is Some
            &&& pending(end) == ActionView::Abort(end.failure->Some_0)
            &&& end.outcomes.len() == 0
        }),
    decreases later.len(),
{
    if later.len() > 0 {
        lemma_failed_load_sends_nothing(run, recipients, template, later.drop_last());
    }
}

/// Before the sources are in, no event makes the run ask for a send.
pub proof fn lemma_nothing_sent_before_load(run: RunView, event: EventView)
    requires
        coherent(run),
        run.phase == Phase::Idle,
    ensures
        !(pending(advance(run, event)) is Send),
        advance(run, event).outcomes.len() == 0,
{
}

/// What a step records is what it adds: an event that records an outcome
/// puts it at the end of the run's outcomes, and an event that records none
/// leaves the outcomes as they were.
pub proof fn lemma_recorded_is_the_outcome_added(run: RunView, event: EventView)
    ensures
        match recorded(run, event) {
            Some(outcome) => advance(run, event).outcomes == run.outcomes.push(outcome),
            None => advance(run, event).outcomes == run.outcomes,
        },
{
}

/// A run that is done stays as it is: no event moves it, and nothing more
/// is sent or recorded.
pub proof fn lemma_done_is_terminal(run: RunView, events: Seq<EventView>)
    requires
        run.phase == Phase::Done,
    ensures
        advance_all(run, events) == run,
    decreases events.len(),
{
    if events.len() > 0 {
        lemma_done_is_terminal(run, events.drop_last());
    }
}

/// The sources are asked for once: a run that has been told what reading
/// them gave never asks for them again.
pub proof fn lemma_sources_are_read_once(
    run: RunView,
    recipients: Result<Seq<RecipientView>, LoadError>,
    template: Result<Seq<char>, LoadError>,
    later: Seq<EventView>,
)
    requires
        run.phase == Phase::Idle,
    ensures
        ({
            let end = advance_all(advance(run, EventView::Sources { recipients, template }), later);
            &&& end.phase != Phase::Idle
            &&& !(pending(end) is Load)
        }),
    decreases later.len(),
{
    if later.len() > 0 {
        lemma_sources_are_read_once(run, recipients, template, later.drop_last());
    }
}

} // verus!
