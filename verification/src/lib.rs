//! Core of a shortcut-triggered command dispatcher for a desktop automation
//! companion: a grammar for human-authored shortcut strings, a persisted
//! configuration with one-way schema migration, a startup shortcut registry
//! with partial-failure semantics, a stateless dispatch engine for overlay
//! geometry and agent commands, and a dual-delivery command bus (per-agent
//! mailbox plus bounded live multicast).

pub mod bus;
pub mod config;
pub mod dispatch;
pub mod grammar;
pub mod net;
pub mod overlay;
pub mod registry;
