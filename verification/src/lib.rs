//! Hank: the decision logic of a small IRC bot, with its contracts.
//!
//! The library reads chat commands, decides what the bot answers, parses
//! ISO 8601 durations, and keeps the state of the plugins (coin prices,
//! the Markov chain of past messages). Network and file access stay with
//! the caller, which performs the reactions that the library returns.

pub mod text;
pub mod keyed;
pub mod duration;
pub mod outside;
pub mod errors;
pub mod plugin;
pub mod handlers;
pub mod bot;
pub mod json;
