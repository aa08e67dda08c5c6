//! One poll cycle: a fetch, the filter, then an alert and an acknowledgement for each kept
//! notification, one after the other and in fetch order.
//!
//! The cycle decides and the caller acts: each step hands out the one thing to do next, and
//! the caller reports back what came of it.

use crate::filters::{retained, retained_spec};
use crate::github::{
    fetch_request, is_header_text, list_notifications, notification_views, FetchRequest,
    FetchRequestView, Notification, NotificationView, RequestError, RequestErrorView,
    INVALID_HEADER_TEXT,
};
use crate::notify::{alert_for, display_notification, Alert, AlertView};
use vstd::prelude::*;

verus! {

/// What a cycle is waiting for.
#[derive(Clone, Copy, Debug, PartialEq, Eq, Structural)]
pub enum CyclePhase {
    /// The answer of the feed.
    Fetching,
    /// Word that the current notification's alert was shown.
    Displaying,
    /// The answer to the current notification's acknowledgement.
    Acknowledging,
}

/// An acknowledgement that failed, with the notification it was for.
#[derive(Debug)]
pub struct AckFailure {
    pub id: String,
    pub error: RequestError,
}

/// A failed acknowledgement as contracts see it.
pub struct AckFailureView {
    pub id: Seq<char>,
    pub error: RequestErrorView,
}

impl View for AckFailure {
    type V = AckFailureView;

    open spec fn view(&self) -> AckFailureView {
        AckFailureView { id: self.id@, error: self.error@ }
    }
}

/// The views of a run of failures, in the same order.
pub open spec fn failure_views(failures: Seq<AckFailure>) -> Seq<AckFailureView> {
    failures.map_values(|f: AckFailure| f@)
}

/// What a cycle that ran to its end has done.
#[derive(Debug)]
pub struct CycleReport {
    /// How many notifications were shown and acknowledged.
    pub processed: usize,
    /// The acknowledgements that failed, in the order in which they were tried.
    pub failures: Vec<AckFailure>,
}

/// A report as contracts see it.
pub struct CycleReportView {
    pub processed: nat,
    pub failures: Seq<AckFailureView>,
}

impl View for CycleReport {
    type V = CycleReportView;

    open spec fn view(&self) -> CycleReportView {
        CycleReportView {
            processed: self.processed as nat,
            failures: failure_views(self.failures@),
        }
    }
}

/// How a cycle ended.
#[derive(Debug)]
pub enum CycleOutcome {
    /// Every kept notification was shown and its acknowledgement tried.
    Completed(CycleReport),
    /// The fetch failed, or its request could not be built: nothing was shown.
    FetchFailed(RequestError),
}

/// An outcome as contracts see it.
pub enum CycleOutcomeView {
    Completed(CycleReportView),
    FetchFailed(RequestErrorView),
}

impl View for CycleOutcome {
    type V = CycleOutcomeView;

    open spec fn view(&self) -> CycleOutcomeView {
        match self {
            CycleOutcome::Completed(report) => CycleOutcomeView::Completed(report@),
            CycleOutcome::FetchFailed(error) => CycleOutcomeView::FetchFailed(error@),
        }
    }
}

/// What the caller reports back to a cycle.
#[derive(Debug)]
pub enum CycleEvent {
    /// The feed answered, with the whole list or with an error.
    Fetched(Result<Vec<Notification>, RequestError>),
    /// The alert was handed to the desktop.
    Displayed,
    /// The acknowledgement was tried, and this came of it.
    Acknowledged(Result<(), RequestError>),
}

/// An event as contracts see it.
pub enum CycleEventView {
    Fetched(Result<Seq<NotificationView>, RequestErrorView>),
    Displayed,
    Acknowledged(Result<(), RequestErrorView>),
}

impl View for CycleEvent {
    type V = CycleEventView;

    open spec fn view(&self) -> CycleEventView {
        match self {
            CycleEvent::Fetched(Ok(list)) => CycleEventView::Fetched(
                Ok(notification_views(list@)),
            ),
            CycleEvent::Fetched(Err(error)) => CycleEventView::Fetched(Err(error@)),
            CycleEvent::Displayed => CycleEventView::Displayed,
            CycleEvent::Acknowledged(Ok(_)) => CycleEventView::Acknowledged(Ok(())),
            CycleEvent::Acknowledged(Err(error)) => CycleEventView::Acknowledged(Err(error@)),
        }
    }
}

/// The one thing that the caller is asked to do next.
#[derive(Debug)]
pub enum CycleAction {
    /// Send this request and decode the list it answers with.
    Fetch(FetchRequest),
    /// Show this alert.
    Display(Alert),
    /// Tell the feed that the notification with this id was consumed.
    Acknowledge(String),
}

/// An action as contracts see it.
pub enum CycleActionView {
    Fetch(FetchRequestView),
    Display(AlertView),
    Acknowledge(Seq<char>),
}

impl View for CycleAction {
    type V = CycleActionView;

    open spec fn view(&self) -> CycleActionView {
        match self {
            CycleAction::Fetch(request) => CycleActionView::Fetch(request@),
            CycleAction::Display(alert) => CycleActionView::Display(alert@),
            CycleAction::Acknowledge(id) => CycleActionView::Acknowledge(id@),
        }
    }
}

/// A cycle in flight. It lives from its fetch to its last acknowledgement and holds nothing
/// of any other cycle.
#[derive(Debug)]
pub struct PollCycle {
    phase: CyclePhase,
    retained: Vec<Notification>,
    cursor: usize,
    failures: Vec<AckFailure>,
}

/// A cycle as contracts see it.
pub struct PollCycleView {
    /// What the cycle is waiting for.
    pub phase: CyclePhase,
    /// The kept notifications of this cycle's fetch, in fetch order.
    pub retained: Seq<NotificationView>,
    /// How many of them are settled: shown, and their acknowledgement answered.
    pub cursor: nat,
    /// The acknowledgements that failed so far.
    pub failures: Seq<AckFailureView>,
}

impl PollCycleView {
    /// Past the fetch there is always a current notification.
    pub open spec fn wf(self) -> bool {
        self.phase != CyclePhase::Fetching ==> self.cursor < self.retained.len()
    }
}

impl View for PollCycle {
    type V = PollCycleView;

    closed spec fn view(&self) -> PollCycleView {
        PollCycleView {
            phase: self.phase,
            retained: notification_views(self.retained@),
            cursor: self.cursor as nat,
            failures: failure_views(self.failures@),
        }
    }
}

/// What one step of a cycle comes to.
#[derive(Debug)]
pub enum CycleStep {
    /// The cycle goes on: do this, then report back.
    Next(PollCycle, CycleAction),
    /// The cycle is over.
    Done(CycleOutcome),
    /// The event was not the awaited one: it is dropped and the cycle still waits.
    Ignored(PollCycle),
}

/// A step as contracts see it.
pub enum CycleStepView {
    Next(PollCycleView, CycleActionView),
    Done(CycleOutcomeView),
    Ignored(PollCycleView),
}

impl View for CycleStep {
    type V = CycleStepView;

    open spec fn view(&self) -> CycleStepView {
        match self {
            CycleStep::Next(cycle, action) => CycleStepView::Next(cycle@, action@),
            CycleStep::Done(outcome) => CycleStepView::Done(outcome@),
            CycleStep::Ignored(cycle) => CycleStepView::Ignored(cycle@),
        }
    }
}

/// How a cycle starts: with the fetch, unless the token cannot stand in a header, in which
/// case the cycle is over before anything was sent.
pub open spec fn begin_spec(token: Seq<char>) -> CycleStepView {
    if is_header_text(token) {
        CycleStepView::Next(
            PollCycleView {
                phase: CyclePhase::Fetching,
                retained: Seq::empty(),
                cursor: 0,
                failures: Seq::empty(),
            },
            CycleActionView::Fetch(fetch_request(token)),
        )
    } else {
        CycleStepView::Done(
            CycleOutcomeView::FetchFailed(RequestErrorView { message: INVALID_HEADER_TEXT@ }),
        )
    }
}

/// Where a cycle stands once `cursor` of its kept notifications are settled: the next one
/// is shown, or none is left and the cycle is over.
pub open spec fn advance_spec(
    retained: Seq<NotificationView>,
    cursor: nat,
    failures: Seq<AckFailureView>,
) -> CycleStepView {
    if cursor < retained.len() {
        CycleStepView::Next(
            PollCycleView { phase: CyclePhase::Displaying, retained, cursor, failures },
            CycleActionView::Display(alert_for(retained[cursor as int])),
        )
    } else {
        CycleStepView::Done(
            CycleOutcomeView::Completed(CycleReportView { processed: retained.len(), failures }),
        )
    }
}

/// The failures after one more acknowledgement was answered for the notification `id`.
pub open spec fn record_spec(
    failures: Seq<AckFailureView>,
    id: Seq<char>,
    answer: Result<(), RequestErrorView>,
) -> Seq<AckFailureView> {
    match answer {
        Ok(_) => failures,
        Err(error) => failures.push(AckFailureView { id, error }),
    }
}

/// One step of a cycle.
///
/// - The feed's list is filtered and the first kept notification is shown; a failed fetch
///   ends the cycle at once.
/// - A shown notification is acknowledged next.
/// - An answered acknowledgement, good or bad, settles the notification; a bad one is
///   recorded. Then the next notification is shown, or the cycle is over.
/// - Any other event is dropped.
pub open spec fn step_spec(cycle: PollCycleView, event: CycleEventView) -> CycleStepView {
    match (cycle.phase, event) {
        (CyclePhase::Fetching, CycleEventView::Fetched(Ok(list))) => advance_spec(
            retained_spec(list),
            0,
            Seq::empty(),
        ),
        (CyclePhase::Fetching, CycleEventView::Fetched(Err(error))) => CycleStepView::Done(
            CycleOutcomeView::FetchFailed(error),
        ),
        (CyclePhase::Displaying, CycleEventView::Displayed) => CycleStepView::Next(
            PollCycleView { phase: CyclePhase::Acknowledging, ..cycle },
            CycleActionView::Acknowledge(cycle.retained[cycle.cursor as int].id),
        ),
        (CyclePhase::Acknowledging, CycleEventView::Acknowledged(answer)) => advance_spec(
            cycle.retained,
            cycle.cursor + 1,
            record_spec(cycle.failures, cycle.retained[cycle.cursor as int].id, answer),
        ),
        _ => CycleStepView::Ignored(cycle),
    }
}

impl PollCycle {
    #[verifier::type_invariant]
    spec fn inv(self) -> bool {
        self.phase != CyclePhase::Fetching ==> self.cursor < self.retained.len()
    }

    /// Starts a cycle for the account behind `token`.
    pub fn begin(token: &str) -> (first: CycleStep)
        ensures
            first@ == begin_spec(token@),
            first matches CycleStep::Next(cycle, _) ==> cycle@.wf(),
    {
        match list_notifications(token) {
            Ok(request) => {
                let cycle = PollCycle {
                    phase: CyclePhase::Fetching,
                    retained: Vec::new(),
                    cursor: 0,
                    failures: Vec::new(),
                };
                assert(cycle@.retained =~= Seq::empty());
                assert(cycle@.failures =~= Seq::empty());
                CycleStep::Next(cycle, CycleAction::Fetch(request))
            },
            Err(error) => CycleStep::Done(CycleOutcome::FetchFailed(error)),
        }
    }

    /// Goes on once `cursor` of the kept notifications are settled.
    fn advance(retained: Vec<Notification>, cursor: usize, failures: Vec<AckFailure>) -> (next:
        CycleStep)
        requires
            cursor <= retained.len(),
        ensures
            next@ == advance_spec(
                notification_views(retained@),
                cursor as nat,
                failure_views(failures@),
            ),
            next matches CycleStep::Next(cycle, _) ==> cycle@.wf(),
    {
        if cursor < retained.len() {
            let alert = display_notification(&retained[cursor]);
            let cycle = PollCycle { phase: CyclePhase::Displaying, retained, cursor, failures };
            CycleStep::Next(cycle, CycleAction::Display(alert))
        } else {
            let processed = retained.len();
            CycleStep::Done(CycleOutcome::Completed(CycleReport { processed, failures }))
        }
    }

    /// The cycle from the point where the filter has run: `kept` is what the filter left of
    /// the fetched list. The first of them is shown, or the cycle is over if there is none.
    pub fn present(kept: Vec<Notification>) -> (next: CycleStep)
        ensures
            next@ == advance_spec(notification_views(kept@), 0, Seq::empty()),
            next matches CycleStep::Next(cycle, _) ==> cycle@.wf(),
    {
        let failures: Vec<AckFailure> = Vec::new();
        assert(failure_views(failures@) =~= Seq::empty());
        PollCycle::advance(kept, 0, failures)
    }

    /// Takes what the caller reports and says what to do next.
    pub fn step(self, event: CycleEvent) -> (next: CycleStep)
        ensures
            next@ == step_spec(self@, event@),
            self@.wf(),
            next matches CycleStep::Next(cycle, _) ==> cycle@.wf(),
            next matches CycleStep::Ignored(cycle) ==> cycle@.wf(),
    {
        proof {
            use_type_invariant(&self);
        }
        match (self.phase, event) {
            (CyclePhase::Fetching, CycleEvent::Fetched(Ok(list))) => PollCycle::present(
                retained(list),
            ),
            (CyclePhase::Fetching, CycleEvent::Fetched(Err(error))) => CycleStep::Done(
                CycleOutcome::FetchFailed(error),
            ),
            (CyclePhase::Displaying, CycleEvent::Displayed) => {
                let id = self.retained[self.cursor].id.clone();
                let cycle = PollCycle {
                    phase: CyclePhase::Acknowledging,
                    retained: self.retained,
                    cursor: self.cursor,
                    failures: self.failures,
                };
                CycleStep::Next(cycle, CycleAction::Acknowledge(id))
            },
            (CyclePhase::Acknowledging, CycleEvent::Acknowledged(answer)) => {
                let mut failures = self.failures;
                match answer {
                    Ok(_) => {},
                    Err(error) => {
                        let ghost before = failures@;
                        let failure = AckFailure {
                            id: self.retained[self.cursor].id.clone(),
                            error,
                        };
                        failures.push(failure);
                        assert(failure_views(failures@) =~= failure_views(before).push(
                            failure@,
                        ));
                    },
                }
                PollCycle::advance(self.retained, self.cursor + 1, failures)
            },
            (_, _) => CycleStep::Ignored(self),
        }
    }

    /// What the cycle is waiting for.
    pub fn phase(&self) -> (phase: CyclePhase)
        ensures
            phase == self@.phase,
    {
        self.phase
    }
}

/// What the caller is asked to do, in order, when it starts from `step`, does what it is
/// asked and reports `events` one after the other.
pub open spec fn actions_spec(step: CycleStepView, events: Seq<CycleEventView>) -> Seq<
    CycleActionView,
>
    decreases events.len(),
{
    match step {
        CycleStepView::Next(cycle, action) => seq![action] + (if events.len() == 0 {
            Seq::empty()
        } else {
            actions_spec(step_spec(cycle, events[0]), events.skip(1))
        }),
        CycleStepView::Ignored(cycle) => if events.len() == 0 {
            Seq::empty()
        } else {
            actions_spec(step_spec(cycle, events[0]), events.skip(1))
        },
        CycleStepView::Done(_) => Seq::empty(),
    }
}

/// Where the cycle stands after the same run: events that arrive after its end are not
/// looked at.
pub open spec fn end_spec(step: CycleStepView, events: Seq<CycleEventView>) -> CycleStepView
    decreases events.len(),
{
    match step {
        CycleStepView::Done(_) => step,
        CycleStepView::Next(cycle, _) | CycleStepView::Ignored(cycle) => if events.len() == 0 {
            step
        } else {
            end_spec(step_spec(cycle, events[0]), events.skip(1))
        },
    }
}

/// What a caller reports for the kept notifications when their acknowledgements are
/// answered by `answers` in turn: for each one that it was shown, then the answer.
pub open spec fn item_events(answers: Seq<Result<(), RequestErrorView>>) -> Seq<CycleEventView>
    decreases answers.len(),
{
    if answers.len() == 0 {
        Seq::empty()
    } else {
        seq![CycleEventView::Displayed, CycleEventView::Acknowledged(answers[0])] + item_events(
            answers.skip(1),
        )
    }
}

/// What is due for the kept notifications: for each one, in order, its alert and then its
/// acknowledgement.
pub open spec fn item_actions(kept: Seq<NotificationView>) -> Seq<CycleActionView>
    decreases kept.len(),
{
    if kept.len() == 0 {
        Seq::empty()
    } else {
        seq![
            CycleActionView::Display(alert_for(kept[0])),
            CycleActionView::Acknowledge(kept[0].id),
        ] + item_actions(kept.skip(1))
    }
}

/// The failures to record when the acknowledgements of `kept` are answered by `answers`:
/// one for each bad answer, in order.
pub open spec fn failures_spec(
    kept: Seq<NotificationView>,
    answers: Seq<Result<(), RequestErrorView>>,
) -> Seq<AckFailureView>
    decreases kept.len(),
{
    if kept.len() == 0 || answers.len() == 0 {
        Seq::empty()
    } else {
        record_spec(Seq::empty(), kept[0].id, answers[0]) + failures_spec(
            kept.skip(1),
            answers.skip(1),
        )
    }
}

/// From any point of a cycle on, the rest runs as due: each notification that is not yet
/// settled gets its alert and then its acknowledgement, whatever the answers are, and the
/// cycle ends with all of them counted and every bad answer recorded.
proof fn lemma_rest_of_cycle(
    kept: Seq<NotificationView>,
    answers: Seq<Result<(), RequestErrorView>>,
    settled: nat,
    failures: Seq<AckFailureView>,
)
    requires
        settled <= kept.len() == answers.len(),
    ensures
        actions_spec(
            advance_spec(kept, settled, failures),
            item_events(answers.skip(settled as int)),
        ) == item_actions(kept.skip(settled as int)),
        end_spec(advance_spec(kept, settled, failures), item_events(answers.skip(settled as int)))
            == CycleStepView::Done(
            CycleOutcomeView::Completed(
                CycleReportView {
                    processed: kept.len(),
                    failures: failures + failures_spec(
                        kept.skip(settled as int),
                        answers.skip(settled as int),
                    ),
                },
            ),
        ),
    decreases kept.len() - settled,
{
    let at = settled as int;
    let start = advance_spec(kept, settled, failures);
    let events = item_events(answers.skip(at));
    if settled < kept.len() {
        let showing = PollCycleView {
            phase: CyclePhase::Displaying,
            retained: kept,
            cursor: settled,
            failures,
        };
        let asking = PollCycleView { phase: CyclePhase::Acknowledging, ..showing };
        let id = kept[at].id;
        let recorded = record_spec(failures, id, answers[at]);
        let later = item_events(answers.skip(at + 1));
        assert(answers.skip(at).skip(1) =~= answers.skip(at + 1));
        assert(kept.skip(at).skip(1) =~= kept.skip(at + 1));
        assert(events.skip(1).skip(1) =~= later);
        // The alert is shown, the acknowledgement is answered, and the rest follows.
        let asked = step_spec(showing, events[0]);
        let answered = step_spec(asking, events.skip(1)[0]);
        lemma_rest_of_cycle(kept, answers, settled + 1, recorded);
        assert(actions_spec(asked, events.skip(1)) == seq![CycleActionView::Acknowledge(id)]
            + actions_spec(answered, later));
        assert(end_spec(start, events) == end_spec(asked, events.skip(1)));
        assert(recorded + failures_spec(kept.skip(at + 1), answers.skip(at + 1)) =~= failures
            + failures_spec(kept.skip(at), answers.skip(at)));
    }
}

/// A cycle does what is due, in fetch order. With a token that can stand in a header, a
/// fetch that answers `fetched` and acknowledgements that answer `answers`, the caller is
/// asked to fetch, then for each kept notification to show its alert and to acknowledge
/// it, and nothing else. Every acknowledgement is tried whatever the earlier ones came to.
/// The cycle then ends with all kept notifications counted and each bad answer recorded.
pub proof fn law_cycle_processes_kept_in_order(
    token: Seq<char>,
    fetched: Seq<NotificationView>,
    answers: Seq<Result<(), RequestErrorView>>,
)
    requires
        is_header_text(token),
        answers.len() == retained_spec(fetched).len(),
    ensures
        actions_spec(
            begin_spec(token),
            seq![CycleEventView::Fetched(Ok(fetched))] + item_events(answers),
        ) == seq![CycleActionView::Fetch(fetch_request(token))] + item_actions(
            retained_spec(fetched),
        ),
        end_spec(
            begin_spec(token),
            seq![CycleEventView::Fetched(Ok(fetched))] + item_events(answers),
        ) == CycleStepView::Done(
            CycleOutcomeView::Completed(
                CycleReportView {
                    processed: retained_spec(fetched).len(),
                    failures: failures_spec(retained_spec(fetched), answers),
                },
            ),
        ),
{
    let kept = retained_spec(fetched);
    let events = seq![CycleEventView::Fetched(Ok(fetched))] + item_events(answers);
    assert(events.skip(1) =~= item_events(answers));
    assert(answers.skip(0) =~= answers);
    assert(kept.skip(0) =~= kept);
    lemma_rest_of_cycle(kept, answers, 0, Seq::empty());
}

/// What is shown and acknowledged does not depend on how the acknowledgements fare: a bad
/// answer for one notification changes nothing for the others.
pub proof fn law_ack_failures_are_isolated(
    token: Seq<char>,
    fetched: Seq<NotificationView>,
    answers: Seq<Result<(), RequestErrorView>>,
    others: Seq<Result<(), RequestErrorView>>,
)
    requires
        is_header_text(token),
        answers.len() == retained_spec(fetched).len(),
        others.len() == retained_spec(fetched).len(),
    ensures
        actions_spec(
            begin_spec(token),
            seq![CycleEventView::Fetched(Ok(fetched))] + item_events(answers),
        ) == actions_spec(
            begin_spec(token),
            seq![CycleEventView::Fetched(Ok(fetched))] + item_events(others),
        ),
{
    law_cycle_processes_kept_in_order(token, fetched, answers);
    law_cycle_processes_kept_in_order(token, fetched, others);
}

/// A cycle whose fetch fails shows nothing and acknowledges nothing: the fetch is the only
/// thing asked, and the cycle ends with the fetch's error, whatever is reported afterwards.
/// With a token that cannot stand in a header not even the fetch is asked.
pub proof fn law_failed_fetch_does_nothing(
    token: Seq<char>,
    error: RequestErrorView,
    later: Seq<CycleEventView>,
)
    ensures
        is_header_text(token) ==> actions_spec(
            begin_spec(token),
            seq![CycleEventView::Fetched(Err(error))] + later,
        ) == seq![CycleActionView::Fetch(fetch_request(token))] && end_spec(
            begin_spec(token),
            seq![CycleEventView::Fetched(Err(error))] + later,
        ) == CycleStepView::Done(CycleOutcomeView::FetchFailed(error)),
        !is_header_text(token) ==> actions_spec(begin_spec(token), later) == Seq::<
            CycleActionView,
        >::empty() && end_spec(begin_spec(token), later) == CycleStepView::Done(
            CycleOutcomeView::FetchFailed(RequestErrorView { message: INVALID_HEADER_TEXT@ }),
        ),
{
    let events = seq![CycleEventView::Fetched(Err(error))] + later;
    if is_header_text(token) {
        let failed = CycleStepView::Done(CycleOutcomeView::FetchFailed(error));
        assert(actions_spec(failed, events.skip(1)) =~= Seq::empty());
        assert(end_spec(failed, events.skip(1)) == failed);
    }
}

/// The actions due for the kept notifications are two for each, in order: the alert of the
/// notification, then its acknowledgement. So no notification is shown or acknowledged
/// twice, and none is passed over.
pub proof fn lemma_item_actions_at(kept: Seq<NotificationView>, i: int)
    requires
        0 <= i < kept.len(),
    ensures
        item_actions(kept).len() == 2 * kept.len(),
        item_actions(kept)[2 * i] == CycleActionView::Display(alert_for(kept[i])),
        item_actions(kept)[2 * i + 1] == CycleActionView::Acknowledge(kept[i].id),
    decreases kept.len(),
{
    lemma_item_actions_len(kept);
    lemma_item_actions_len(kept.skip(1));
    if i > 0 {
        lemma_item_actions_at(kept.skip(1), i - 1);
    }
}

/// Two actions are due for each kept notification.
pub proof fn lemma_item_actions_len(kept: Seq<NotificationView>)
    ensures
        item_actions(kept).len() == 2 * kept.len(),
    decreases kept.len(),
{
    if kept.len() > 0 {
        lemma_item_actions_len(kept.skip(1));
    }
}

/// Every bad answer is recorded with the notification it was for.
pub proof fn lemma_failure_is_recorded(
    kept: Seq<NotificationView>,
    answers: Seq<Result<(), RequestErrorView>>,
    i: int,
)
    requires
        kept.len() == answers.len(),
        0 <= i < kept.len(),
        answers[i] is Err,
    ensures
        failures_spec(kept, answers).contains(
            AckFailureView { id: kept[i].id, error: answers[i]->Err_0 },
        ),
    decreases kept.len(),
{
    let head = record_spec(Seq::empty(), kept[0].id, answers[0]);
    let tail = failures_spec(kept.skip(1), answers.skip(1));
    if i == 0 {
        assert((head + tail)[0] == head[0]);
    } else {
        lemma_failure_is_recorded(kept.skip(1), answers.skip(1), i - 1);
        let wanted = AckFailureView { id: kept[i].id, error: answers[i]->Err_0 };
        let at = choose|at: int| 0 <= at < tail.len() && tail[at] == wanted;
        assert((head + tail)[head.len() + at] == wanted);
    }
}

} // verus!
