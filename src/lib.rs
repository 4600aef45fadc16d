//! Core of a chat-platform bot: the gateway session state machine, its
//! heartbeat coordinator, the reconnect supervisor, the interaction
//! dispatcher, the URL cleaner that the dispatcher calls, and the records
//! and checks of the rule store that supplies the cleaner's rules.
pub mod backoff;
pub mod json;
pub mod heartbeat;
pub mod frame;
pub mod session;
pub mod text;
pub mod cleaner;
pub mod engine;
pub mod config;
pub mod dispatch;
pub mod rest;
pub mod validation;
pub mod auth;
pub mod models;
