//! The publish workflow: make the title, ask whether its page exists, create
//! the page if it does not, and report how it ended.
//!
//! The workflow is a state machine that is driven from outside. `step` takes
//! the state and what has just happened, and answers with the request to send
//! next and the state to wait in, or with the outcome. It sends nothing
//! itself: the caller performs each request and hands back the reply.

use crate::browser::shows_existing_page;
use crate::calendar::{CalendarDate, LocalDate};
use crate::remote::{ErrorModel, TransportError};
use crate::template::{template_for, template_text};
use crate::title::{generate_title, lemma_title_is_one_to_one, title_text, PeriodKind};
use vstd::prelude::*;

verus! {

/// The model of an outcome.
pub enum OutcomeModel {
    AlreadyExists,
    Created,
    Failed(ErrorModel),
}

/// How a run of the workflow ended.
#[derive(Clone, Debug, PartialEq, Eq)]
pub enum PublishOutcome {
    /// A page of the title was there already; nothing was created.
    AlreadyExists,
    /// The page was created.
    Created,
    /// The run was given up, for the reason given.
    Failed(TransportError),
}

impl View for PublishOutcome {
    type V = OutcomeModel;

    open spec fn view(&self) -> OutcomeModel {
        match self {
            PublishOutcome::AlreadyExists => OutcomeModel::AlreadyExists,
            PublishOutcome::Created => OutcomeModel::Created,
            PublishOutcome::Failed(e) => OutcomeModel::Failed(e@),
        }
    }
}

/// The model of a state in which the workflow waits.
pub enum StateModel {
    Start,
    TitleGenerated { title: Seq<char>, body: Seq<char> },
    ExistenceChecked,
}

/// A state in which the workflow waits for something to happen. The states
/// in which it has ended are the outcomes.
#[derive(Clone, Debug, PartialEq, Eq)]
pub enum WorkflowState {
    /// Nothing has been done yet.
    Start,
    /// The title and the body are fixed, and the service has been asked
    /// whether the page exists.
    TitleGenerated { title: String, body: String },
    /// The page is known to be absent, and the service has been asked to
    /// create it.
    ExistenceChecked,
}

impl View for WorkflowState {
    type V = StateModel;

    open spec fn view(&self) -> StateModel {
        match self {
            WorkflowState::Start => StateModel::Start,
            WorkflowState::TitleGenerated { title, body } => StateModel::TitleGenerated {
                title: title@,
                body: body@,
            },
            WorkflowState::ExistenceChecked => StateModel::ExistenceChecked,
        }
    }
}

/// The model of an event.
pub enum EventModel {
    Begin { kind: PeriodKind, date: CalendarDate },
    ExistenceKnown(Result<bool, ErrorModel>),
    CreateFinished(Result<(), ErrorModel>),
}

/// What the workflow is told.
#[derive(Debug, PartialEq, Eq)]
pub enum Event {
    /// The run begins, for the period of `kind` that starts on `now`.
    Begin { kind: PeriodKind, now: LocalDate },
    /// The reply to the question whether the page exists.
    ExistenceKnown(Result<bool, TransportError>),
    /// The reply to the request to create the page.
    CreateFinished(Result<(), TransportError>),
}

impl View for Event {
    type V = EventModel;

    open spec fn view(&self) -> EventModel {
        match self {
            Event::Begin { kind, now } => EventModel::Begin { kind: *kind, date: now@ },
            Event::ExistenceKnown(Ok(exists)) => EventModel::ExistenceKnown(Ok(*exists)),
            Event::ExistenceKnown(Err(e)) => EventModel::ExistenceKnown(Err(e@)),
            Event::CreateFinished(Ok(_)) => EventModel::CreateFinished(Ok(())),
            Event::CreateFinished(Err(e)) => EventModel::CreateFinished(Err(e@)),
        }
    }
}

/// The model of a request.
pub enum RequestModel {
    CheckExistence { title: Seq<char> },
    CreatePage { title: Seq<char>, body: Seq<char> },
}

/// What the workflow asks the transport to do.
#[derive(Clone, Debug, PartialEq, Eq)]
pub enum Request {
    /// Find out whether a page of this title exists.
    CheckExistence { title: String },
    /// Create the page of this title with this body.
    CreatePage { title: String, body: String },
}

impl View for Request {
    type V = RequestModel;

    open spec fn view(&self) -> RequestModel {
        match self {
            Request::CheckExistence { title } => RequestModel::CheckExistence { title: title@ },
            Request::CreatePage { title, body } => RequestModel::CreatePage {
                title: title@,
                body: body@,
            },
        }
    }
}

/// The model of a step.
pub enum StepModel {
    Wait { state: StateModel, request: RequestModel },
    Done(OutcomeModel),
}

/// What the workflow does next: send a request and wait for its reply in the
/// given state, or end with an outcome.
#[derive(Clone, Debug, PartialEq, Eq)]
pub enum Step {
    Wait { state: WorkflowState, request: Request },
    Done(PublishOutcome),
}

impl View for Step {
    type V = StepModel;

    open spec fn view(&self) -> StepModel {
        match self {
            Step::Wait { state, request } => StepModel::Wait { state: state@, request: request@ },
            Step::Done(outcome) => StepModel::Done(outcome@),
        }
    }
}

/// The step that ends a run because an event came that the state does not
/// wait for.
pub open spec fn out_of_turn() -> StepModel {
    StepModel::Done(OutcomeModel::Failed(ErrorModel::OutOfTurn))
}

/// The workflow.
///
/// From `Start`, the beginning of a run fixes the title and the body and asks
/// whether the page exists. With the title fixed, the reply decides: the page
/// exists, and the run ends with nothing created; it does not, and its
/// creation is requested; it could not be found out, and the run fails
/// without any attempt to create the page. After that request, its reply ends
/// the run, as created or as failed. An event that the state does not wait
/// for ends the run as failed.
pub open spec fn transition(state: StateModel, event: EventModel) -> StepModel {
    match state {
        StateModel::Start => match event {
            EventModel::Begin { kind, date } => StepModel::Wait {
                state: StateModel::TitleGenerated {
                    title: title_text(kind, date),
                    body: template_text(kind),
                },
                request: RequestModel::CheckExistence { title: title_text(kind, date) },
            },
            _ => out_of_turn(),
        },
        StateModel::TitleGenerated { title, body } => match event {
            EventModel::ExistenceKnown(Ok(exists)) => if exists {
                StepModel::Done(OutcomeModel::AlreadyExists)
            } else {
                StepModel::Wait {
                    state: StateModel::ExistenceChecked,
                    request: RequestModel::CreatePage { title, body },
                }
            },
            EventModel::ExistenceKnown(Err(e)) => StepModel::Done(OutcomeModel::Failed(e)),
            _ => out_of_turn(),
        },
        StateModel::ExistenceChecked => match event {
            EventModel::CreateFinished(Ok(_)) => StepModel::Done(OutcomeModel::Created),
            EventModel::CreateFinished(Err(e)) => StepModel::Done(OutcomeModel::Failed(e)),
            _ => out_of_turn(),
        },
    }
}

/// Takes one step of the workflow: from the state and the event to the
/// request to send and the state to wait in, or to the outcome.
pub fn step(state: WorkflowState, event: Event) -> (next: Step)
    ensures
        next@ == transition(state@, event@),
{
    match state {
        WorkflowState::Start => match event {
            Event::Begin { kind, now } => {
                let title = generate_title(kind, now);
                let body = template_for(kind).to_owned();
                let asked = title.clone();
                Step::Wait {
                    state: WorkflowState::TitleGenerated { title, body },
                    request: Request::CheckExistence { title: asked },
                }
            },
            _ => Step::Done(PublishOutcome::Failed(TransportError::OutOfTurn)),
        },
        WorkflowState::TitleGenerated { title, body } => match event {
            Event::ExistenceKnown(Ok(exists)) => {
                if exists {
                    Step::Done(PublishOutcome::AlreadyExists)
                } else {
                    Step::Wait {
                        state: WorkflowState::ExistenceChecked,
                        request: Request::CreatePage { title, body },
                    }
                }
            },
            Event::ExistenceKnown(Err(e)) => Step::Done(PublishOutcome::Failed(e)),
            _ => Step::Done(PublishOutcome::Failed(TransportError::OutOfTurn)),
        },
        WorkflowState::ExistenceChecked => match event {
            Event::CreateFinished(Ok(_)) => Step::Done(PublishOutcome::Created),
            Event::CreateFinished(Err(e)) => Step::Done(PublishOutcome::Failed(e)),
            _ => Step::Done(PublishOutcome::Failed(TransportError::OutOfTurn)),
        },
    }
}

/// A request to create a page is made in one situation only: the title is
/// fixed and the service has just answered that the page does not exist; and
/// the request is for exactly that title and body. So where the question
/// whether the page exists ends in an error, whatever the state, the run ends
/// as failed and no page is requested.
pub proof fn lemma_creation_only_after_absence(state: StateModel, event: EventModel)
    ensures
        transition(state, event) matches StepModel::Wait {
            request: RequestModel::CreatePage { title, body },
            ..
        } ==> event == EventModel::ExistenceKnown(Ok(false)) && state == (
        StateModel::TitleGenerated { title, body }),
        event matches EventModel::ExistenceKnown(Err(e)) ==> transition(state, event)
            matches StepModel::Done(OutcomeModel::Failed(_)),
        state is TitleGenerated ==> (event matches EventModel::ExistenceKnown(Err(e))
            ==> transition(state, event) == StepModel::Done(OutcomeModel::Failed(e))),
{
}

/// A page whose text could not be read is never taken for an absent page:
/// whatever the state, the run ends as failed, and no page is requested.
pub proof fn lemma_unreadable_page_fails_the_run(state: StateModel)
    ensures
        shows_existing_page(None) is Err,
        transition(state, EventModel::ExistenceKnown(shows_existing_page(None)))
            matches StepModel::Done(OutcomeModel::Failed(_)),
        state is TitleGenerated ==> transition(
            state,
            EventModel::ExistenceKnown(shows_existing_page(None)),
        ) == StepModel::Done(OutcomeModel::Failed(shows_existing_page(None)->Err_0)),
{
}

/// A service that answers truthfully and never fails, as the set of the
/// titles of its pages: asked whether a page exists, it says whether the
/// title is in the set; asked to create a page, it adds the title.
pub open spec fn served(request: RequestModel, pages: Set<Seq<char>>) -> (EventModel, Set<
    Seq<char>,
>) {
    match request {
        RequestModel::CheckExistence { title } => (
            EventModel::ExistenceKnown(Ok(pages.contains(title))),
            pages,
        ),
        RequestModel::CreatePage { title, body } => (
            EventModel::CreateFinished(Ok(())),
            pages.insert(title),
        ),
    }
}

/// How a run against such a service ended: the outcome, the pages of the
/// service afterwards, and how many pages the run asked it to create.
pub struct RunModel {
    pub outcome: OutcomeModel,
    pub pages: Set<Seq<char>>,
    pub creations: nat,
}

/// Runs the workflow from `state` on `event` against such a service, for at
/// most `steps` further requests. `None` where the run has not ended by then.
pub open spec fn run_from(
    state: StateModel,
    event: EventModel,
    pages: Set<Seq<char>>,
    steps: nat,
) -> Option<RunModel>
    decreases steps,
{
    match transition(state, event) {
        StepModel::Done(outcome) => Some(RunModel { outcome, pages, creations: 0 }),
        StepModel::Wait { state: waiting, request } => {
            if steps == 0 {
                None
            } else {
                let (reply, pages_after) = served(request, pages);
                match run_from(waiting, reply, pages_after, (steps - 1) as nat) {
                    Some(rest) => Some(
                        RunModel {
                            outcome: rest.outcome,
                            pages: rest.pages,
                            creations: rest.creations + if request is CreatePage {
                                1nat
                            } else {
                                0nat
                            },
                        },
                    ),
                    None => None,
                }
            }
        },
    }
}

/// A whole run for the period of `kind` that starts on `date`, against such a
/// service. No run sends more than two requests.
pub open spec fn run(kind: PeriodKind, date: CalendarDate, pages: Set<Seq<char>>) -> Option<
    RunModel,
> {
    run_from(StateModel::Start, EventModel::Begin { kind, date }, pages, 2)
}

/// Against a service that answers truthfully and never fails, every run ends
/// within two requests. Where the page is absent the run creates it, with one
/// request, and the page is there afterwards; where it is there the run
/// creates nothing and leaves the service as it was.
pub proof fn lemma_run(kind: PeriodKind, date: CalendarDate, pages: Set<Seq<char>>)
    ensures
        run(kind, date, pages) is Some,
        !pages.contains(title_text(kind, date)) ==> run(kind, date, pages) == Some(
            RunModel {
                outcome: OutcomeModel::Created,
                pages: pages.insert(title_text(kind, date)),
                creations: 1,
            },
        ),
        pages.contains(title_text(kind, date)) ==> run(kind, date, pages) == Some(
            RunModel { outcome: OutcomeModel::AlreadyExists, pages, creations: 0 },
        ),
{
    reveal_with_fuel(run_from, 3);
}

/// Publishing is idempotent. Of two runs in a row for the same kind and date,
/// against a service that answers truthfully and never fails, the second
/// always finds the page and asks for nothing to be created, so the two never
/// both create a page; and where the page was absent at first, the first run
/// creates it, once.
pub proof fn lemma_second_run_finds_the_page(
    kind: PeriodKind,
    date: CalendarDate,
    pages: Set<Seq<char>>,
)
    ensures
        ({
            let first = run(kind, date, pages)->0;
            let second = run(kind, date, first.pages)->0;
            &&& run(kind, date, pages) is Some
            &&& run(kind, date, first.pages) is Some
            &&& second.outcome == OutcomeModel::AlreadyExists
            &&& second.creations == 0
            &&& second.pages == first.pages
            &&& first.creations + second.creations <= 1
            &&& !pages.contains(title_text(kind, date)) ==> first.outcome == OutcomeModel::Created
                && first.creations == 1
        }),
{
    lemma_run(kind, date, pages);
    let first = run(kind, date, pages)->0;
    lemma_run(kind, date, first.pages);
}

/// The page of one period does not stand in for the page of another. After
/// a run for one period, a run for another kind of period, or for a period
/// that starts on another day, still creates its own page if that was absent.
pub proof fn lemma_other_periods_get_their_own_page(
    kind: PeriodKind,
    date: CalendarDate,
    other_kind: PeriodKind,
    other_date: CalendarDate,
    pages: Set<Seq<char>>,
)
    requires
        kind != other_kind || date != other_date,
        !pages.contains(title_text(other_kind, other_date)),
    ensures
        ({
            let first = run(kind, date, pages)->0;
            let second = run(other_kind, other_date, first.pages)->0;
            &&& run(kind, date, pages) is Some
            &&& run(other_kind, other_date, first.pages) is Some
            &&& second.outcome == OutcomeModel::Created
            &&& second.creations == 1
            &&& second.pages == first.pages.insert(title_text(other_kind, other_date))
        }),
{
    lemma_run(kind, date, pages);
    let first = run(kind, date, pages)->0;
    if title_text(kind, date) == title_text(other_kind, other_date) {
        lemma_title_is_one_to_one(kind, date, other_kind, other_date);
    }
    lemma_run(other_kind, other_date, first.pages);
}

/// The exit status of the process for an outcome: 0, or 1 for a failed run.
pub open spec fn exit_status(outcome: OutcomeModel) -> int {
    if outcome is Failed {
        1
    } else {
        0
    }
}

impl PublishOutcome {
    /// The exit status of the process: 0, or 1 for a failed run.
    pub fn exit_code(&self) -> (code: i32)
        ensures
            code as int == exit_status(self@),
    {
        match self {
            PublishOutcome::Failed(_) => 1,
            _ => 0,
        }
    }
}

} // verus!
