//! Verified core of the daily stock analysis service: bot command handling,
//! platform message adapters, request guards, report rendering and the
//! notification rules.
pub mod text;
pub mod json;
pub mod strings;
pub mod clock;
pub mod bot;
pub mod server;
pub mod services;
