//! The pre-launch validation gate.
//!
//! Before anything is compiled or spawned, at least one of the four
//! model sources — local path, hub repository, model directory, remote
//! URL — must be given.  Otherwise the launch is refused with a
//! descriptive error and the compiler is never invoked.

use vstd::prelude::*;
use crate::args::{spec_args, string_views};
use crate::settings::{ServerConfig, has_model_source};

verus! {

/// Why a launch was refused.
#[derive(Clone, Copy, Debug, PartialEq, Eq, Structural)]
pub enum LaunchError {
    /// No model path, hub repository, model directory or model URL was
    /// given.
    NoModelSource,
}

impl LaunchError {
    /// The user-facing description of the refusal.
    pub fn message(&self) -> (r: String)
        ensures
            r@ == "Please provide a model path, HuggingFace repo, model directory, or model URL."@,
    {
        String::from_str(
            "Please provide a model path, HuggingFace repo, model directory, or model URL.",
        )
    }
}

impl ServerConfig {
    /// The launch gate: refuses when no model source is given, and
    /// otherwise hands back the compiled argument vector.  Succeeds if
    /// and only if a model source is present.
    pub fn prepare_launch(&self) -> (r: Result<Vec<String>, LaunchError>)
        ensures
            r is Ok <==> has_model_source(*self),
            r is Ok ==> string_views(r->Ok_0@) == spec_args(*self),
            r is Err ==> r->Err_0 == LaunchError::NoModelSource,
    {
        if self.model_source_given() {
            Ok(self.to_args())
        } else {
            Err(LaunchError::NoModelSource)
        }
    }
}

} // verus!
