//! Core of a multi-protocol chat bot: a unified event model, priority-ordered
//! subscription dispatch, a mediator for modules, and the single-consumer
//! event loop with timer and reconnection orchestration.

pub mod discord;
pub mod dispatcher;
pub mod fmt;
pub mod irc;
pub mod logger;
pub mod modules;
pub mod queue;
pub mod sources;
pub mod text;
pub mod timers;
pub mod types;
