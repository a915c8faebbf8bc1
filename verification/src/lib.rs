//! Publishes a recurring journal page, daily or weekly, to a wiki-style note
//! service: the page title is derived from the calendar date, the body is a
//! fixed template, and the page is created only when no page of that title
//! exists yet.
//!
//! The library holds the decisions: the calendar model, the title format, the
//! requests each transport sends and how it reads the replies, and the state
//! machine that turns replies into the next request or the final outcome.
//! Reading the clock and talking to the service are left to the caller.

pub mod api;
pub mod browser;
pub mod calendar;
pub mod remote;
pub mod report;
pub mod template;
pub mod text;
pub mod title;
pub mod workflow;
