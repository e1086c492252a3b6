//! A terminal download wizard: a step-by-step state machine that collects a
//! download type, a source URL and a format, then hands the validated
//! selections to a background worker and tracks its progress through a
//! shared record.

pub mod app;
pub mod download;
pub mod handlers;
pub mod poll;
pub mod ui;
