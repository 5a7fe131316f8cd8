//! Two-stage configuration model for a network relay service.
//!
//! A loosely-typed [`config::FriendlyConfig`] is loaded from the outside
//! world; the single fallible conversion [`config::FriendlyConfig::into_config`]
//! checks every operator-supplied field and produces the strictly-typed
//! [`config::Config`] that the rest of the relay trusts unconditionally.

pub mod ascii;
pub mod config;
pub mod error;
pub mod hex;
pub mod host;
pub mod level;
