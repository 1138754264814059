//! Verified core of `td`, a command-line client for Todoist.
//!
//! The modules hold the data model of the local cache, the rules by which
//! commands find, filter, sort and present tasks and other entities, and the
//! text that the command line prints. Input and output live outside.

pub mod text;
pub mod style;
pub mod output;
pub mod model;
pub mod resolve;
pub mod cli;
pub mod commands;
pub mod sort;
pub mod dates;
pub mod dispatch;
pub mod startup;
