use scrapbox_journal::api::{creation_from_response, page_exists_from_status};
use scrapbox_journal::browser::page_exists_in;
use scrapbox_journal::calendar::LocalDate;
use scrapbox_journal::remote::TransportError;
use scrapbox_journal::report::{announcement, describe, outcome_line};
use scrapbox_journal::template::{DAILY_TEXT, WEEKLY_TEXT};
use scrapbox_journal::title::PeriodKind;
use scrapbox_journal::workflow::{step, Event, PublishOutcome, Request, Step, WorkflowState};

fn begin(kind: PeriodKind, year: i32, month: u32, day: u32) -> Event {
    Event::Begin { kind, now: LocalDate::new(year, month, day).unwrap() }
}

fn failure(detail: &str) -> TransportError {
    TransportError::Failure { detail: String::from(detail) }
}

/// A stand-in for the service that records every request it gets.
struct Service {
    pages: Vec<String>,
    existence_fails: bool,
    creation_fails: bool,
    checks: Vec<String>,
    creations: Vec<(String, String)>,
}

impl Service {
    fn with_pages(pages: &[&str]) -> Service {
        Service {
            pages: pages.iter().map(|p| String::from(*p)).collect(),
            existence_fails: false,
            creation_fails: false,
            checks: Vec::new(),
            creations: Vec::new(),
        }
    }

    fn serve(&mut self, request: Request) -> Event {
        match request {
            Request::CheckExistence { title } => {
                self.checks.push(title.clone());
                if self.existence_fails {
                    Event::ExistenceKnown(Err(failure("connection refused")))
                } else {
                    Event::ExistenceKnown(Ok(self.pages.contains(&title)))
                }
            }
            Request::CreatePage { title, body } => {
                self.creations.push((title.clone(), body));
                if self.creation_fails {
                    Event::CreateFinished(Err(TransportError::Rejected {
                        status: 500,
                        message: String::from("try later"),
                    }))
                } else {
                    self.pages.push(title);
                    Event::CreateFinished(Ok(()))
                }
            }
        }
    }

    fn publish(&mut self, kind: PeriodKind, year: i32, month: u32, day: u32) -> PublishOutcome {
        let mut state = WorkflowState::Start;
        let mut event = begin(kind, year, month, day);
        loop {
            match step(state, event) {
                Step::Done(outcome) => return outcome,
                Step::Wait { state: waiting, request } => {
                    state = waiting;
                    event = self.serve(request);
                }
            }
        }
    }
}

#[test]
fn beginning_fixes_title_and_body_and_asks_for_existence() {
    let next = step(WorkflowState::Start, begin(PeriodKind::Daily, 2024, 1, 3));
    assert_eq!(
        next,
        Step::Wait {
            state: WorkflowState::TitleGenerated {
                title: String::from("2024/1/3 (Wed)"),
                body: String::from(DAILY_TEXT),
            },
            request: Request::CheckExistence { title: String::from("2024/1/3 (Wed)") },
        }
    );
    let next = step(WorkflowState::Start, begin(PeriodKind::Weekly, 2024, 1, 29));
    assert_eq!(
        next,
        Step::Wait {
            state: WorkflowState::TitleGenerated {
                title: String::from("2024/1/29 ~ 2024/2/4"),
                body: String::from(WEEKLY_TEXT),
            },
            request: Request::CheckExistence { title: String::from("2024/1/29 ~ 2024/2/4") },
        }
    );
}

fn title_generated() -> WorkflowState {
    WorkflowState::TitleGenerated { title: String::from("T"), body: String::from("B") }
}

#[test]
fn an_existing_page_ends_the_run_without_a_request() {
    assert_eq!(
        step(title_generated(), Event::ExistenceKnown(Ok(true))),
        Step::Done(PublishOutcome::AlreadyExists)
    );
}

#[test]
fn an_absent_page_is_requested_with_title_and_body() {
    assert_eq!(
        step(title_generated(), Event::ExistenceKnown(Ok(false))),
        Step::Wait {
            state: WorkflowState::ExistenceChecked,
            request: Request::CreatePage { title: String::from("T"), body: String::from("B") },
        }
    );
}

#[test]
fn a_failed_existence_check_fails_the_run() {
    assert_eq!(
        step(title_generated(), Event::ExistenceKnown(Err(failure("timeout")))),
        Step::Done(PublishOutcome::Failed(failure("timeout")))
    );
}

#[test]
fn the_reply_to_the_creation_ends_the_run() {
    assert_eq!(
        step(WorkflowState::ExistenceChecked, Event::CreateFinished(Ok(()))),
        Step::Done(PublishOutcome::Created)
    );
    let rejected = TransportError::Rejected { status: 403, message: String::from("forbidden") };
    assert_eq!(
        step(WorkflowState::ExistenceChecked, Event::CreateFinished(Err(rejected.clone()))),
        Step::Done(PublishOutcome::Failed(rejected))
    );
}

#[test]
fn an_event_out_of_turn_fails_the_run() {
    let out_of_turn = Step::Done(PublishOutcome::Failed(TransportError::OutOfTurn));
    assert_eq!(step(WorkflowState::Start, Event::ExistenceKnown(Ok(false))), out_of_turn);
    assert_eq!(step(WorkflowState::Start, Event::CreateFinished(Ok(()))), out_of_turn);
    assert_eq!(step(title_generated(), begin(PeriodKind::Daily, 2024, 1, 3)), out_of_turn);
    assert_eq!(step(title_generated(), Event::CreateFinished(Ok(()))), out_of_turn);
    assert_eq!(
        step(WorkflowState::ExistenceChecked, Event::ExistenceKnown(Ok(false))),
        out_of_turn
    );
    assert_eq!(
        step(WorkflowState::ExistenceChecked, begin(PeriodKind::Weekly, 2024, 1, 3)),
        out_of_turn
    );
}

#[test]
fn publishing_twice_creates_the_page_once() {
    let mut service = Service::with_pages(&[]);
    assert_eq!(service.publish(PeriodKind::Daily, 2024, 1, 3), PublishOutcome::Created);
    assert_eq!(service.publish(PeriodKind::Daily, 2024, 1, 3), PublishOutcome::AlreadyExists);
    assert_eq!(service.checks, vec!["2024/1/3 (Wed)", "2024/1/3 (Wed)"]);
    assert_eq!(
        service.creations,
        vec![(String::from("2024/1/3 (Wed)"), String::from(DAILY_TEXT))]
    );
    assert_eq!(service.pages, vec!["2024/1/3 (Wed)"]);
}

#[test]
fn publishing_a_week_twice_creates_the_page_once() {
    let mut service = Service::with_pages(&["2024/1/3 (Wed)"]);
    assert_eq!(service.publish(PeriodKind::Weekly, 2023, 12, 28), PublishOutcome::Created);
    assert_eq!(service.publish(PeriodKind::Weekly, 2023, 12, 28), PublishOutcome::AlreadyExists);
    assert_eq!(
        service.creations,
        vec![(String::from("2023/12/28 ~ 2024/1/3"), String::from(WEEKLY_TEXT))]
    );
}

#[test]
fn the_next_day_gets_a_page_of_its_own() {
    let mut service = Service::with_pages(&[]);
    assert_eq!(service.publish(PeriodKind::Daily, 2024, 1, 3), PublishOutcome::Created);
    assert_eq!(service.publish(PeriodKind::Daily, 2024, 1, 4), PublishOutcome::Created);
    assert_eq!(service.pages, vec!["2024/1/3 (Wed)", "2024/1/4 (Thu)"]);
}

#[test]
fn no_page_is_requested_when_existence_is_unknown() {
    let mut service = Service::with_pages(&[]);
    service.existence_fails = true;
    assert_eq!(
        service.publish(PeriodKind::Daily, 2024, 1, 3),
        PublishOutcome::Failed(failure("connection refused"))
    );
    assert_eq!(service.checks.len(), 1);
    assert!(service.creations.is_empty());
    assert!(service.pages.is_empty());
}

#[test]
fn a_rejected_creation_fails_the_run_and_can_be_tried_again() {
    let mut service = Service::with_pages(&[]);
    service.creation_fails = true;
    assert_eq!(
        service.publish(PeriodKind::Daily, 2024, 1, 3),
        PublishOutcome::Failed(TransportError::Rejected {
            status: 500,
            message: String::from("try later")
        })
    );
    assert_eq!(service.creations.len(), 1);
    service.creation_fails = false;
    assert_eq!(service.publish(PeriodKind::Daily, 2024, 1, 3), PublishOutcome::Created);
    assert_eq!(service.creations.len(), 2);
}

/// Drives one run over the direct transport, with the statuses that the
/// service answers the two requests with; returns the outcome and whether a
/// page was posted.
fn publish_over_api(get_status: u16, post_status: u16) -> (PublishOutcome, bool) {
    let mut posted = false;
    let mut state = WorkflowState::Start;
    let mut event = begin(PeriodKind::Daily, 2024, 1, 3);
    loop {
        match step(state, event) {
            Step::Done(outcome) => return (outcome, posted),
            Step::Wait { state: waiting, request } => {
                state = waiting;
                event = match request {
                    Request::CheckExistence { .. } => {
                        Event::ExistenceKnown(Ok(page_exists_from_status(get_status)))
                    }
                    Request::CreatePage { .. } => {
                        posted = true;
                        Event::CreateFinished(creation_from_response(
                            post_status,
                            String::from("message"),
                        ))
                    }
                };
            }
        }
    }
}

#[test]
fn direct_api_not_found_then_created() {
    assert_eq!(publish_over_api(404, 200), (PublishOutcome::Created, true));
}

#[test]
fn direct_api_found_means_already_exists_and_no_post() {
    assert_eq!(publish_over_api(200, 200), (PublishOutcome::AlreadyExists, false));
    assert_eq!(publish_over_api(200, 500), (PublishOutcome::AlreadyExists, false));
}

#[test]
fn direct_api_rejected_post_is_surfaced() {
    assert_eq!(
        publish_over_api(404, 403),
        (
            PublishOutcome::Failed(TransportError::Rejected {
                status: 403,
                message: String::from("message")
            }),
            true
        )
    );
}

/// Drives one run over the browser-driven transport, with the text that the
/// page renders as; returns the outcome and whether the creating address was
/// visited.
fn publish_over_browser(rendered: Option<&str>) -> (PublishOutcome, bool) {
    let mut visited = false;
    let mut state = WorkflowState::Start;
    let mut event = begin(PeriodKind::Daily, 2024, 1, 3);
    loop {
        match step(state, event) {
            Step::Done(outcome) => return (outcome, visited),
            Step::Wait { state: waiting, request } => {
                state = waiting;
                event = match request {
                    Request::CheckExistence { .. } => {
                        Event::ExistenceKnown(page_exists_in(rendered))
                    }
                    Request::CreatePage { .. } => {
                        visited = true;
                        Event::CreateFinished(Ok(()))
                    }
                };
            }
        }
    }
}

#[test]
fn browser_sentinel_present_proceeds_to_create() {
    assert_eq!(
        publish_over_browser(Some("2024/1/3 (Wed)\ncreate new page")),
        (PublishOutcome::Created, true)
    );
}

#[test]
fn browser_sentinel_absent_means_already_exists() {
    assert_eq!(
        publish_over_browser(Some("2024/1/3 (Wed)\n[* ルーティン]")),
        (PublishOutcome::AlreadyExists, false)
    );
}

#[test]
fn browser_without_text_fails_the_run_and_creates_nothing() {
    let (outcome, visited) = publish_over_browser(None);
    assert_eq!(
        outcome,
        PublishOutcome::Failed(failure("the text of the page could not be read"))
    );
    assert!(!visited);
    assert_eq!(outcome.exit_code(), 1);
    assert_eq!(
        outcome_line(&outcome, "2024/1/3 (Wed)"),
        "Error: the text of the page could not be read"
    );
}

#[test]
fn exit_code_is_nonzero_only_for_a_failed_run() {
    assert_eq!(PublishOutcome::Created.exit_code(), 0);
    assert_eq!(PublishOutcome::AlreadyExists.exit_code(), 0);
    assert_eq!(PublishOutcome::Failed(failure("x")).exit_code(), 1);
    assert_eq!(PublishOutcome::Failed(TransportError::OutOfTurn).exit_code(), 1);
}

#[test]
fn announcement_names_the_title() {
    assert_eq!(announcement("2024/1/3 (Wed)"), "Writing to Scrapbox: 2024/1/3 (Wed)...");
}

#[test]
fn outcome_lines_tell_how_the_run_ended() {
    assert_eq!(
        outcome_line(&PublishOutcome::AlreadyExists, "2024/1/3 (Wed)"),
        "Page \"2024/1/3 (Wed)\" already exists."
    );
    assert_eq!(outcome_line(&PublishOutcome::Created, "T"), "Page created successfully!");
    assert_eq!(
        outcome_line(&PublishOutcome::Failed(failure("element never appeared")), "T"),
        "Error: element never appeared"
    );
    assert_eq!(
        outcome_line(
            &PublishOutcome::Failed(TransportError::Rejected {
                status: 403,
                message: String::from("forbidden")
            }),
            "T"
        ),
        "Error: status 403: forbidden"
    );
}

#[test]
fn errors_are_described_with_their_detail() {
    assert_eq!(describe(&failure("connection refused")), "connection refused");
    assert_eq!(
        describe(&TransportError::Rejected { status: 500, message: String::from("oops") }),
        "status 500: oops"
    );
    assert_eq!(describe(&TransportError::OutOfTurn), "a reply came that answers no request");
}
