//! Chat-bot front end: command dispatch, the built-in commands and the
//! platform adapters.
pub mod commands;
pub mod dispatcher;
pub mod platforms;
