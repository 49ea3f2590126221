//! Credential and rate-limit core for a multi-provider LLM dispatcher.
//!
//! The library is built from three pieces composed by the [`manager::LlmManager`]
//! facade: a credential store whose snapshot is replaced atomically and read
//! lock-free, a cooldown tracker mapping model identifiers to the second they
//! were last rate limited, and a pure resolver splitting `provider/model`
//! names.

pub mod config;
pub mod cooldown;
pub mod credentials;
pub mod error;
pub mod manager;
pub mod resolver;
pub mod text;
