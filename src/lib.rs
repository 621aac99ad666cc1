//! Core of a chat bot for a public character catalog: the subscription
//! registry, the daily broadcast schedule, the paginated catalog walk, the
//! uniform pick over a fetched collection and the per-chat trivia game.
//!
//! Transport (chat messages, HTTP) lives outside; this crate holds the
//! decisions and proves them.
pub mod catalog;
pub mod dispatch;
pub mod registry;
pub mod sampler;
pub mod schedule;
pub mod search;
pub mod text;
pub mod trivia;
