use github_notifier::cycle::{
    CycleAction, CycleEvent, CycleOutcome, CyclePhase, CycleStep, PollCycle,
};
use github_notifier::github::{Notification, Repository, RequestError, Subject};

fn notification(id: &str, title: &str) -> Notification {
    Notification {
        id: id.to_owned(),
        repository: Repository {
            id: "42".to_owned(),
            name: "vector".to_owned(),
            full_name: format!("acme/{id}"),
            html_url: "https://github.com/acme/vector".to_owned(),
            description: None,
        },
        subject: Subject { title: title.to_owned(), category: "PullRequest".to_owned() },
    }
}

/// Starts a cycle and checks that the fetch is what it asks first.
fn started(token: &str) -> PollCycle {
    match PollCycle::begin(token) {
        CycleStep::Next(cycle, CycleAction::Fetch(request)) => {
            assert_eq!(request.url, "https://api.github.com/notifications");
            assert_eq!(
                request.headers.get("authorization").unwrap().as_bytes(),
                format!("Bearer {token}").as_bytes()
            );
            assert_eq!(cycle.phase(), CyclePhase::Fetching);
            cycle
        }
        other => panic!("the cycle did not ask for the fetch: {other:?}"),
    }
}

/// Runs a cycle to its end, answering acknowledgement number `i` with `answers[i]`, and
/// returns what was asked, as text, and how the cycle ended.
fn drive(
    fetched: Result<Vec<Notification>, RequestError>,
    answers: Vec<Result<(), RequestError>>,
) -> (Vec<String>, CycleOutcome) {
    let mut asked = Vec::new();
    let mut answers = answers.into_iter();
    let mut step = started("tok").step(CycleEvent::Fetched(fetched));
    loop {
        match step {
            CycleStep::Next(cycle, CycleAction::Display(alert)) => {
                assert_eq!(cycle.phase(), CyclePhase::Displaying);
                asked.push(format!("display {} / {}", alert.summary, alert.body));
                step = cycle.step(CycleEvent::Displayed);
            }
            CycleStep::Next(cycle, CycleAction::Acknowledge(id)) => {
                assert_eq!(cycle.phase(), CyclePhase::Acknowledging);
                asked.push(format!("acknowledge {id}"));
                step = cycle.step(CycleEvent::Acknowledged(answers.next().unwrap()));
            }
            CycleStep::Done(outcome) => {
                assert!(answers.next().is_none());
                return (asked, outcome);
            }
            other => panic!("unexpected step: {other:?}"),
        }
    }
}

#[test]
fn a_cycle_starts_with_the_fetch() {
    let cycle = started("s3cr3t");
    assert_eq!(cycle.phase(), CyclePhase::Fetching);
}

#[test]
fn a_token_that_is_no_header_ends_the_cycle_before_the_fetch() {
    match PollCycle::begin("bad\ntoken") {
        CycleStep::Done(CycleOutcome::FetchFailed(e)) => {
            assert_eq!(e.message(), "failed to parse header value");
        }
        other => panic!("unexpected step: {other:?}"),
    }
}

#[test]
fn a_failed_fetch_shows_and_acknowledges_nothing() {
    let (asked, outcome) = drive(Err(RequestError::new("connection refused")), vec![]);
    assert!(asked.is_empty());
    match outcome {
        CycleOutcome::FetchFailed(e) => assert_eq!(e.message(), "connection refused"),
        other => panic!("unexpected outcome: {other:?}"),
    }
}

#[test]
fn kept_notifications_are_shown_and_acknowledged_in_fetch_order() {
    let fetched = vec![
        notification("A", "fix: first"),
        notification("B", "chore(deps): bump serde"),
        notification("C", "feat: third"),
    ];
    let (asked, outcome) = drive(Ok(fetched), vec![Ok(()), Ok(())]);
    assert_eq!(
        asked,
        vec![
            "display acme/A / PullRequest: fix: first",
            "acknowledge A",
            "display acme/C / PullRequest: feat: third",
            "acknowledge C",
        ]
    );
    match outcome {
        CycleOutcome::Completed(report) => {
            assert_eq!(report.processed, 2);
            assert!(report.failures.is_empty());
        }
        other => panic!("unexpected outcome: {other:?}"),
    }
}

#[test]
fn a_failed_acknowledgement_does_not_stop_the_cycle() {
    let fetched = vec![
        notification("A", "fix: first"),
        notification("B", "chore(deps): bump serde"),
        notification("C", "feat: third"),
    ];
    let (asked, outcome) =
        drive(Ok(fetched), vec![Err(RequestError::new("failed")), Ok(())]);
    assert_eq!(
        asked,
        vec![
            "display acme/A / PullRequest: fix: first",
            "acknowledge A",
            "display acme/C / PullRequest: feat: third",
            "acknowledge C",
        ]
    );
    match outcome {
        CycleOutcome::Completed(report) => {
            assert_eq!(report.processed, 2);
            assert_eq!(report.failures.len(), 1);
            assert_eq!(report.failures[0].id, "A");
            assert_eq!(report.failures[0].error.message(), "failed");
        }
        other => panic!("unexpected outcome: {other:?}"),
    }
}

#[test]
fn every_failed_acknowledgement_is_recorded_in_order() {
    let fetched = vec![
        notification("A", "one"),
        notification("B", "two"),
        notification("C", "three"),
        notification("D", "four"),
    ];
    let answers = vec![
        Err(RequestError::new("first")),
        Ok(()),
        Err(RequestError::new("third")),
        Err(RequestError::new("fourth")),
    ];
    let (asked, outcome) = drive(Ok(fetched), answers);
    assert_eq!(asked.len(), 8);
    assert_eq!(asked[6], "display acme/D / PullRequest: four");
    assert_eq!(asked[7], "acknowledge D");
    match outcome {
        CycleOutcome::Completed(report) => {
            assert_eq!(report.processed, 4);
            let failed: Vec<(&str, &str)> =
                report.failures.iter().map(|f| (f.id.as_str(), f.error.message())).collect();
            assert_eq!(failed, vec![("A", "first"), ("C", "third"), ("D", "fourth")]);
        }
        other => panic!("unexpected outcome: {other:?}"),
    }
}

#[test]
fn an_empty_feed_ends_the_cycle_at_once() {
    let (asked, outcome) = drive(Ok(Vec::new()), vec![]);
    assert!(asked.is_empty());
    match outcome {
        CycleOutcome::Completed(report) => {
            assert_eq!(report.processed, 0);
            assert!(report.failures.is_empty());
        }
        other => panic!("unexpected outcome: {other:?}"),
    }
}

#[test]
fn a_feed_of_dependency_bumps_ends_the_cycle_at_once() {
    let fetched = vec![
        notification("A", "chore(dep): bump a"),
        notification("B", "chore(deps-dev): bump b"),
    ];
    let (asked, outcome) = drive(Ok(fetched), vec![]);
    assert!(asked.is_empty());
    match outcome {
        CycleOutcome::Completed(report) => assert_eq!(report.processed, 0),
        other => panic!("unexpected outcome: {other:?}"),
    }
}

#[test]
fn the_same_notification_twice_in_the_feed_is_shown_twice() {
    let fetched = vec![notification("A", "one"), notification("A", "one")];
    let (asked, outcome) = drive(Ok(fetched), vec![Ok(()), Ok(())]);
    assert_eq!(
        asked,
        vec![
            "display acme/A / PullRequest: one",
            "acknowledge A",
            "display acme/A / PullRequest: one",
            "acknowledge A",
        ]
    );
    match outcome {
        CycleOutcome::Completed(report) => assert_eq!(report.processed, 2),
        other => panic!("unexpected outcome: {other:?}"),
    }
}

#[test]
fn an_event_that_is_not_awaited_is_dropped() {
    let cycle = started("tok");
    let cycle = match cycle.step(CycleEvent::Displayed) {
        CycleStep::Ignored(cycle) => cycle,
        other => panic!("unexpected step: {other:?}"),
    };
    assert_eq!(cycle.phase(), CyclePhase::Fetching);
    let cycle = match cycle.step(CycleEvent::Acknowledged(Ok(()))) {
        CycleStep::Ignored(cycle) => cycle,
        other => panic!("unexpected step: {other:?}"),
    };
    let cycle = match cycle.step(CycleEvent::Fetched(Ok(vec![notification("A", "one")]))) {
        CycleStep::Next(cycle, CycleAction::Display(alert)) => {
            assert_eq!(alert.summary, "acme/A");
            cycle
        }
        other => panic!("unexpected step: {other:?}"),
    };
    let cycle = match cycle.step(CycleEvent::Fetched(Ok(vec![notification("Z", "late")]))) {
        CycleStep::Ignored(cycle) => cycle,
        other => panic!("unexpected step: {other:?}"),
    };
    let cycle = match cycle.step(CycleEvent::Acknowledged(Err(RequestError::new("early")))) {
        CycleStep::Ignored(cycle) => cycle,
        other => panic!("unexpected step: {other:?}"),
    };
    assert_eq!(cycle.phase(), CyclePhase::Displaying);
    let cycle = match cycle.step(CycleEvent::Displayed) {
        CycleStep::Next(cycle, CycleAction::Acknowledge(id)) => {
            assert_eq!(id, "A");
            cycle
        }
        other => panic!("unexpected step: {other:?}"),
    };
    let cycle = match cycle.step(CycleEvent::Displayed) {
        CycleStep::Ignored(cycle) => cycle,
        other => panic!("unexpected step: {other:?}"),
    };
    assert_eq!(cycle.phase(), CyclePhase::Acknowledging);
    match cycle.step(CycleEvent::Acknowledged(Ok(()))) {
        CycleStep::Done(CycleOutcome::Completed(report)) => {
            assert_eq!(report.processed, 1);
            assert!(report.failures.is_empty());
        }
        other => panic!("unexpected step: {other:?}"),
    }
}

#[test]
fn a_cycle_past_the_filter_shows_what_it_is_given() {
    let kept = vec![notification("A", "chore(deps): kept all the same"), notification("B", "two")];
    let cycle = match PollCycle::present(kept) {
        CycleStep::Next(cycle, CycleAction::Display(alert)) => {
            assert_eq!(alert.summary, "acme/A");
            assert_eq!(alert.body, "PullRequest: chore(deps): kept all the same");
            assert_eq!(alert.timeout, 0);
            cycle
        }
        other => panic!("unexpected step: {other:?}"),
    };
    let cycle = match cycle.step(CycleEvent::Displayed) {
        CycleStep::Next(cycle, CycleAction::Acknowledge(id)) => {
            assert_eq!(id, "A");
            cycle
        }
        other => panic!("unexpected step: {other:?}"),
    };
    let cycle = match cycle.step(CycleEvent::Acknowledged(Err(RequestError::new("no")))) {
        CycleStep::Next(cycle, CycleAction::Display(alert)) => {
            assert_eq!(alert.summary, "acme/B");
            cycle
        }
        other => panic!("unexpected step: {other:?}"),
    };
    let cycle = match cycle.step(CycleEvent::Displayed) {
        CycleStep::Next(cycle, CycleAction::Acknowledge(id)) => {
            assert_eq!(id, "B");
            cycle
        }
        other => panic!("unexpected step: {other:?}"),
    };
    match cycle.step(CycleEvent::Acknowledged(Ok(()))) {
        CycleStep::Done(CycleOutcome::Completed(report)) => {
            assert_eq!(report.processed, 2);
            assert_eq!(report.failures.len(), 1);
            assert_eq!(report.failures[0].id, "A");
            assert_eq!(report.failures[0].error.message(), "no");
        }
        other => panic!("unexpected step: {other:?}"),
    }
}

#[test]
fn a_cycle_past_the_filter_with_nothing_kept_is_over() {
    match PollCycle::present(Vec::new()) {
        CycleStep::Done(CycleOutcome::Completed(report)) => {
            assert_eq!(report.processed, 0);
            assert!(report.failures.is_empty());
        }
        other => panic!("unexpected step: {other:?}"),
    }
}
