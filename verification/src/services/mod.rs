//! The business services behind the API: request routing and the rules
//! each service applies.
pub mod error;
pub mod alert;
pub mod analysis;
pub mod auth;
pub mod backtest;
pub mod decision;
pub mod intelligence;
pub mod market;
pub mod name_resolver;
pub mod portfolio;
pub mod report;
pub mod scheduler;
pub mod notification;
pub mod delivery;
