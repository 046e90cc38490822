//! A roster-and-attendance backend core: the roster activation engine
//! (capacity model, history lookup, assignment heuristic, activation
//! transaction, per-hall statistics) together with the plain data types
//! the surrounding service exchanges with it.

pub mod capacity;
pub mod clock;
pub mod config;
pub mod dto;
pub mod engine;
pub mod errors;
pub mod events;
pub mod export;
pub mod halls;
pub mod heuristic;
pub mod history;
pub mod ids;
pub mod import;
pub mod logs;
pub mod mailer;
pub mod random;
pub mod reporting;
pub mod roster;
pub mod text;
pub mod users;
