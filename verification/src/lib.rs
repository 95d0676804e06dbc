//! A verified configuration core for a `llama-server` control panel.
//!
//! The library owns the typed settings aggregate, its defaulting policy,
//! and the deterministic translation of a settings value into the flat
//! argument vector handed to the external inference-server executable.
//! Every public operation carries a contract that pins its result down
//! to the exact token sequence the external program will parse.

pub mod args;
pub mod enums;
pub mod fixed;
pub mod launch;
pub mod laws;
pub mod numfmt;
pub mod settings;
