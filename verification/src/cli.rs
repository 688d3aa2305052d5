//! Startup configuration, supplied once before the core begins.

use vstd::prelude::*;

verus! {

/// The shell command template and the adapter name, fixed for the
/// process's lifetime.
#[derive(Clone, Debug)]
pub struct Args {
    /// The command to run.
    pub command: String,
    /// The adapter to use for authenticating run requests and setting up
    /// the environment.
    pub adapter: String,
}

} // verus!
