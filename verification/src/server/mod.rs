//! The HTTP front end's decisions: which outbound URLs the proxy may reach,
//! how replies from the remote account service are read, the stream
//! authorisation check, module routing and the local-mode header rule.
pub mod proxy;
pub mod auth;
pub mod stream;
pub mod analysis_stream;
pub mod chat;
pub mod router;
pub mod strip_auth;
pub mod config;
