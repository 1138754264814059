//! Output formatting: tables for people, record structures for JSON.

pub mod comments;
pub mod filters;
pub mod helpers;
pub mod labels;
pub mod projects;
pub mod reminders;
pub mod sections;
pub mod tasks;
