use mailmerge::dispatch::{Action, Dispatcher, Event, Phase};
use mailmerge::message::EmailSendProperties;
use mailmerge::outcome::{DispatchOutcome, TransportFailure};
use mailmerge::recipient::Recipient;
use mailmerge::render::Template;
use mailmerge::source::{LoadError, LoadFailure, Settings};

fn settings() -> Settings {
    Settings {
        recipient_source: "contents.json".to_string(),
        template_source: "email.txt".to_string(),
        sender_address: "sender@x.com".to_string(),
        subject: "Test Subject".to_string(),
    }
}

fn abort(error: LoadError, source: &str) -> Action {
    Action::Abort(LoadFailure { error, source: source.to_string() })
}

fn failure(words: &str) -> TransportFailure {
    TransportFailure { description: words.to_string() }
}

/// Drives a run to its end. The transport fails for the addresses in
/// `failing`; every message handed out is kept. The last action is returned.
fn drive(
    recipients: Result<Vec<Recipient>, LoadError>,
    template: Result<&str, LoadError>,
    failing: &[&str],
) -> (Dispatcher, Vec<EmailSendProperties>, Vec<Action>, Action) {
    let template = template.map(|body| Template { body: body.to_string() });
    let mut sources = Some((recipients, template));
    let mut sent = Vec::new();
    let mut seen = Vec::new();
    let mut run = Dispatcher::new(settings());
    let mut event = Event::Begin;
    let mut was_delivery = false;
    for _ in 0..1000 {
        let (next, action, recorded) = run.step(event);
        run = next;
        assert_eq!(recorded.as_ref(), if was_delivery { run.outcomes().last() } else { None });
        was_delivery = false;
        event = match action {
            Action::Load { .. } => {
                seen.push(action);
                match sources.take() {
                    Some((recipients, template)) => Event::Sources { recipients, template },
                    None => panic!("sources asked for twice"),
                }
            }
            Action::Announce { .. } => {
                seen.push(action);
                Event::Begin
            }
            Action::Send(message) => {
                let answer = if failing.contains(&message.to.as_str()) {
                    Err(failure("refused"))
                } else {
                    Ok(())
                };
                sent.push(message);
                was_delivery = true;
                Event::Delivery(answer)
            }
            Action::Finish | Action::Abort(_) => return (run, sent, seen, action),
        };
    }
    panic!("the run did not end");
}

#[test]
fn one_recipient_is_sent() {
    let recipients = vec![Recipient::new("Ann", "ann@x.com", "")];
    let (run, sent, seen, last) = drive(Ok(recipients), Ok("Hi {name}!"), &[]);
    assert_eq!(sent.len(), 1);
    assert_eq!(sent[0].body, "Hi Ann!");
    assert_eq!(sent[0].to, "ann@x.com");
    assert_eq!(sent[0].from, "sender@x.com");
    assert_eq!(sent[0].subject, "Test Subject");
    assert_eq!(run.outcomes(), &vec![DispatchOutcome::Sent { email: "ann@x.com".to_string() }]);
    assert_eq!(last, Action::Finish);
    assert_eq!(run.phase(), Phase::Done);
    assert_eq!(run.failure(), None);
    assert_eq!(
        seen,
        vec![
            Action::Load {
                recipient_source: "contents.json".to_string(),
                template_source: "email.txt".to_string()
            },
            Action::Announce { count: 1, source: "contents.json".to_string() },
        ]
    );
}

#[test]
fn failure_for_one_recipient_only() {
    let recipients = vec![Recipient::new("Bo", "bo@x.com", ""), Recipient::new("Cy", "cy@x.com", "")];
    let (run, sent, _, last) = drive(Ok(recipients), Ok("Hi {name}"), &["bo@x.com"]);
    assert_eq!(sent.len(), 2);
    assert_eq!(sent[0].body, "Hi Bo");
    assert_eq!(sent[1].body, "Hi Cy");
    assert_eq!(
        run.outcomes(),
        &vec![
            DispatchOutcome::Failed { email: "bo@x.com".to_string(), description: "refused".to_string() },
            DispatchOutcome::Sent { email: "cy@x.com".to_string() },
        ]
    );
    assert_eq!(run.outcomes()[0].report_line(), "Error sending to bo@x.com: refused");
    assert_eq!(run.outcomes()[1].report_line(), "Email sent to cy@x.com");
    assert_eq!(last, Action::Finish);
    assert_eq!(run.phase(), Phase::Done);
}

#[test]
fn missing_recipient_source_aborts() {
    let (run, sent, _, last) =
        drive(Err(LoadError::SourceNotFound), Ok("Hi {name}"), &[]);
    assert!(sent.is_empty());
    assert!(run.outcomes().is_empty());
    assert_eq!(last, abort(LoadError::SourceNotFound, "contents.json"));
    assert_eq!(run.phase(), Phase::Done);
    assert_eq!(run.failure().map(|f| f.error), Some(LoadError::SourceNotFound));
    assert_eq!(run.failure().map(|f| f.source.as_str()), Some("contents.json"));
}

#[test]
fn template_without_placeholder_goes_out_verbatim() {
    let recipients = vec![Recipient::new("Ann", "ann@x.com", "")];
    let template = "Dear customer,\nno token in here.";
    let (run, sent, _, _) = drive(Ok(recipients), Ok(template), &[]);
    assert_eq!(sent.len(), 1);
    assert_eq!(sent[0].body, template);
    assert_eq!(run.outcomes().len(), 1);
}

#[test]
fn one_outcome_per_recipient_in_load_order() {
    let names = ["a", "b", "c", "d", "e"];
    let recipients: Vec<Recipient> =
        names.iter().map(|n| Recipient::new(n, &format!("{}@x.com", n), "0")).collect();
    let (run, sent, _, last) =
        drive(Ok(recipients.clone()), Ok("{name}"), &["b@x.com", "e@x.com"]);
    assert_eq!(last, Action::Finish);
    assert_eq!(sent.len(), 5);
    assert_eq!(run.outcomes().len(), 5);
    assert_eq!(run.recipients(), &recipients);
    for i in 0..5 {
        assert_eq!(run.outcomes()[i].email(), recipients[i].email);
        assert_eq!(sent[i].to, recipients[i].email);
        assert_eq!(sent[i].body, names[i]);
        assert_eq!(run.outcomes()[i].is_sent(), i != 1 && i != 4);
    }
}

#[test]
fn every_send_failing_still_completes() {
    let recipients = vec![Recipient::new("Bo", "bo@x.com", ""), Recipient::new("Cy", "cy@x.com", "")];
    let (run, sent, _, last) =
        drive(Ok(recipients), Ok("x"), &["bo@x.com", "cy@x.com"]);
    assert_eq!(sent.len(), 2);
    assert_eq!(run.outcomes().len(), 2);
    assert!(!run.outcomes()[0].is_sent());
    assert!(!run.outcomes()[1].is_sent());
    assert_eq!(last, Action::Finish);
    assert_eq!(run.failure(), None);
}

#[test]
fn outcome_of_one_recipient_is_the_same_in_isolation() {
    let bo = Recipient::new("Bo", "bo@x.com", "");
    let cy = Recipient::new("Cy", "cy@x.com", "");
    let (both, _, _, _) =
        drive(Ok(vec![bo.clone(), cy.clone()]), Ok("t"), &["bo@x.com"]);
    let (alone, _, _, _) = drive(Ok(vec![cy]), Ok("t"), &["bo@x.com"]);
    let (other, _, _, _) = drive(Ok(vec![bo]), Ok("t"), &["bo@x.com"]);
    assert_eq!(both.outcomes()[1], alone.outcomes()[0]);
    assert_eq!(both.outcomes()[0], other.outcomes()[0]);
}

#[test]
fn empty_recipient_list_finishes_without_sending() {
    let (run, sent, seen, last) = drive(Ok(Vec::new()), Ok("Hi {name}"), &[]);
    assert!(sent.is_empty());
    assert!(run.outcomes().is_empty());
    assert_eq!(last, Action::Finish);
    assert_eq!(seen[1], Action::Announce { count: 0, source: "contents.json".to_string() });
}

#[test]
fn each_load_error_aborts_with_itself() {
    for error in [LoadError::SourceNotFound, LoadError::SourceUnreadable, LoadError::SourceMalformed] {
        let (run, sent, _, last) = drive(Err(error), Ok("t"), &[]);
        assert!(sent.is_empty());
        assert_eq!(last, abort(error, "contents.json"));
        assert_eq!(run.failure().map(|f| f.error), Some(error));
    }
}

#[test]
fn missing_template_aborts_before_any_send() {
    let recipients = vec![Recipient::new("Ann", "ann@x.com", "")];
    let (run, sent, seen, last) = drive(Ok(recipients), Err(LoadError::SourceNotFound), &[]);
    assert!(sent.is_empty());
    assert!(run.outcomes().is_empty());
    assert!(run.recipients().is_empty());
    assert_eq!(seen.len(), 1);
    assert_eq!(last, abort(LoadError::SourceNotFound, "email.txt"));
    assert_eq!(run.failure().map(|f| f.report_line()), Some("Error reading email.txt: SourceNotFound".to_string()));
}

#[test]
fn recipients_error_comes_before_the_templates() {
    let (_, _, _, last) =
        drive(Err(LoadError::SourceMalformed), Err(LoadError::SourceNotFound), &[]);
    assert_eq!(last, abort(LoadError::SourceMalformed, "contents.json"));
}

#[test]
fn a_new_run_is_idle_and_asks_for_the_sources() {
    let run = Dispatcher::new(settings());
    assert_eq!(run.phase(), Phase::Idle);
    assert!(run.outcomes().is_empty());
    assert!(run.recipients().is_empty());
    assert_eq!(run.failure(), None);
    assert_eq!(
        run.action(),
        Action::Load {
            recipient_source: "contents.json".to_string(),
            template_source: "email.txt".to_string()
        }
    );
}

#[test]
fn phases_follow_one_another() {
    let run = Dispatcher::new(settings());
    let (run, _, _) = run.step(Event::Begin);
    assert_eq!(run.phase(), Phase::Idle);
    let (run, action, _) = run.step(Event::Sources {
        recipients: Ok(vec![Recipient::new("Ann", "ann@x.com", "")]),
        template: Ok(Template { body: "Hi {name}!".to_string() }),
    });
    assert_eq!(run.phase(), Phase::Loaded);
    assert_eq!(action, Action::Announce { count: 1, source: "contents.json".to_string() });
    let (run, action, _) = run.step(Event::Begin);
    assert_eq!(run.phase(), Phase::Dispatching);
    assert!(matches!(action, Action::Send(_)));
    let (run, action, _) = run.step(Event::Delivery(Ok(())));
    assert_eq!(run.phase(), Phase::Done);
    assert_eq!(action, Action::Finish);
}

#[test]
fn an_event_out_of_turn_changes_nothing() {
    let run = Dispatcher::new(settings());
    let (run, action, _) = run.step(Event::Delivery(Ok(())));
    assert_eq!(run.phase(), Phase::Idle);
    assert!(matches!(action, Action::Load { .. }));
    assert!(run.outcomes().is_empty());

    let (run, _, _) = run.step(Event::Sources {
        recipients: Ok(vec![Recipient::new("Ann", "ann@x.com", "")]),
        template: Ok(Template { body: "t".to_string() }),
    });
    let (run, action, _) = run.step(Event::Delivery(Err(failure("early"))));
    assert_eq!(run.phase(), Phase::Loaded);
    assert_eq!(action, Action::Announce { count: 1, source: "contents.json".to_string() });
    let (run, action, _) = run.step(Event::Sources { recipients: Ok(Vec::new()), template: Ok(Template { body: String::new() }) });
    assert_eq!(run.phase(), Phase::Loaded);
    assert_eq!(action, Action::Announce { count: 1, source: "contents.json".to_string() });
    assert_eq!(run.recipients().len(), 1);

    let (run, first, _) = run.step(Event::Begin);
    let (run, again, _) = run.step(Event::Begin);
    assert_eq!(run.phase(), Phase::Dispatching);
    assert_eq!(first, again);
    assert!(run.outcomes().is_empty());
}

#[test]
fn done_is_terminal() {
    let recipients = vec![Recipient::new("Ann", "ann@x.com", "")];
    let (run, _, _, _) = drive(Ok(recipients), Ok("t"), &[]);
    let (run, action, _) = run.step(Event::Begin);
    assert_eq!(action, Action::Finish);
    let (run, action, _) = run.step(Event::Delivery(Err(failure("late"))));
    assert_eq!(action, Action::Finish);
    let (run, action, _) = run.step(Event::Sources { recipients: Ok(Vec::new()), template: Ok(Template { body: String::new() }) });
    assert_eq!(action, Action::Finish);
    assert_eq!(run.phase(), Phase::Done);
    assert_eq!(run.outcomes().len(), 1);

    let (aborted, _, _, _) = drive(Err(LoadError::SourceNotFound), Ok("t"), &[]);
    let (aborted, action, _) = aborted.step(Event::Begin);
    assert_eq!(action, abort(LoadError::SourceNotFound, "contents.json"));
    let (aborted, action, _) = aborted.step(Event::Delivery(Ok(())));
    assert_eq!(action, abort(LoadError::SourceNotFound, "contents.json"));
    assert!(aborted.outcomes().is_empty());
}

#[test]
fn a_step_hands_out_the_outcome_it_recorded() {
    let run = Dispatcher::new(settings());
    let (run, _, recorded) = run.step(Event::Begin);
    assert_eq!(recorded, None);
    let (run, _, recorded) = run.step(Event::Sources {
        recipients: Ok(vec![Recipient::new("Bo", "bo@x.com", ""), Recipient::new("Cy", "cy@x.com", "")]),
        template: Ok(Template { body: "t".to_string() }),
    });
    assert_eq!(recorded, None);
    let (run, _, recorded) = run.step(Event::Delivery(Ok(())));
    assert_eq!(recorded, None);
    let (run, _, recorded) = run.step(Event::Begin);
    assert_eq!(recorded, None);
    let (run, _, recorded) = run.step(Event::Delivery(Err(failure("refused"))));
    assert_eq!(
        recorded,
        Some(DispatchOutcome::Failed { email: "bo@x.com".to_string(), description: "refused".to_string() })
    );
    let (run, _, recorded) = run.step(Event::Begin);
    assert_eq!(recorded, None);
    let (run, action, recorded) = run.step(Event::Delivery(Ok(())));
    assert_eq!(recorded, Some(DispatchOutcome::Sent { email: "cy@x.com".to_string() }));
    assert_eq!(action, Action::Finish);
    let (run, _, recorded) = run.step(Event::Delivery(Ok(())));
    assert_eq!(recorded, None);
    assert_eq!(run.outcomes().len(), 2);
}

#[test]
fn the_fatal_report_names_the_source_that_failed() {
    let (run, _, _, last) = drive(Err(LoadError::SourceMalformed), Err(LoadError::SourceNotFound), &[]);
    assert_eq!(run.failure().map(|f| f.report_line()), Some("Error reading contents.json: SourceMalformed".to_string()));
    match last {
        Action::Abort(failure) => {
            assert_eq!(failure.report_line(), "Error reading contents.json: SourceMalformed")
        }
        other => panic!("unexpected action {:?}", other),
    }
    let (run, _, _, _) = drive(Ok(Vec::new()), Err(LoadError::SourceUnreadable), &[]);
    assert_eq!(run.failure().map(|f| f.report_line()), Some("Error reading email.txt: SourceUnreadable".to_string()));
}
