//! The lines that tell the operator what is being done and how it ended.

use crate::remote::{ErrorModel, TransportError};
use crate::text::{decimal, push_decimal};
use crate::workflow::{OutcomeModel, PublishOutcome};
use vstd::prelude::*;

verus! {

/// The line that says which page is about to be published.
pub open spec fn announcement_text(title: Seq<char>) -> Seq<char> {
    "Writing to Scrapbox: "@ + title + "..."@
}

/// The line that says which page is about to be published.
pub fn announcement(title: &str) -> (line: String)
    ensures
        line@ == announcement_text(title@),
{
    let mut line = "Writing to Scrapbox: ".to_owned();
    line.append(title);
    line.append("...");
    line
}

/// What went wrong, in words: the detail of a failure as it was given, the
/// status and the message of a rejection, or that a reply came out of turn.
pub open spec fn error_text(error: ErrorModel) -> Seq<char> {
    match error {
        ErrorModel::Failure { detail } => detail,
        ErrorModel::Rejected { status, message } => "status "@ + decimal(status as int) + ": "@
            + message,
        ErrorModel::OutOfTurn => "a reply came that answers no request"@,
    }
}

/// What went wrong, in words.
pub fn describe(error: &TransportError) -> (text: String)
    ensures
        text@ == error_text(error@),
{
    match error {
        TransportError::Failure { detail } => detail.clone(),
        TransportError::Rejected { status, message } => {
            let mut text = "status ".to_owned();
            push_decimal(&mut text, *status as i64);
            text.append(": ");
            text.append(message.as_str());
            text
        },
        TransportError::OutOfTurn => "a reply came that answers no request".to_owned(),
    }
}

/// The line that reports how the run for the page `title` ended. A failure
/// is reported with what went wrong.
pub open spec fn outcome_text(outcome: OutcomeModel, title: Seq<char>) -> Seq<char> {
    match outcome {
        OutcomeModel::AlreadyExists => "Page \""@ + title + "\" already exists."@,
        OutcomeModel::Created => "Page created successfully!"@,
        OutcomeModel::Failed(error) => "Error: "@ + error_text(error),
    }
}

/// The line that reports how the run for the page `title` ended.
pub fn outcome_line(outcome: &PublishOutcome, title: &str) -> (line: String)
    ensures
        line@ == outcome_text(outcome@, title@),
{
    match outcome {
        PublishOutcome::AlreadyExists => {
            let mut line = "Page \"".to_owned();
            line.append(title);
            line.append("\" already exists.");
            line
        },
        PublishOutcome::Created => "Page created successfully!".to_owned(),
        PublishOutcome::Failed(error) => {
            let mut line = "Error: ".to_owned();
            let detail = describe(error);
            line.append(detail.as_str());
            line
        },
    }
}

} // verus!
