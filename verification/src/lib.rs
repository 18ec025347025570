//! Core engine of an interactive catalog browser: the session navigator
//! state machine, the background catalog-fetch hand-off protocol, the
//! per-keystroke fuzzy-filter pipeline, and the external-process launch
//! protocol. Terminal drawing, network scraping and configuration storage
//! are collaborators that live outside this crate; the types here exchange
//! plain values with them.

pub mod anime;
pub mod config;
pub mod episodes;
pub mod fetch;
pub mod launcher;
pub mod menu_state;
pub mod navigator;
pub mod popup;
pub mod search;
