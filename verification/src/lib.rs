//! Per-process configuration of an agent's language model.
//!
//! Overrides of the model and its provider come from environment variables or
//! from an embedding application, so that several agents with different
//! providers can run on one system. This crate says what the overrides make of
//! a configuration.
use vstd::prelude::*;

pub mod config;
pub mod laws;
pub mod runtime_overrides;
pub mod startup;
pub mod table;
pub mod text;

pub use runtime_overrides::CodexRuntimeOverrides;

verus! {

/// The version of this package, which custom providers are told.
pub const VERSION: &'static str = "0.1.0";

} // verus!
