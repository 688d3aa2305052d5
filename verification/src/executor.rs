//! Command Executor: builds the shell invocation and the environment the
//! child process receives.
//!
//! Launching and supervising the child are I/O and live outside the
//! library; what is injected into the child's environment, and the argument
//! vector handed to the shell, are verified here.

use vstd::prelude::*;
use crate::adapter::ExecutionContext;

verus! {

/// Extra environment for the child process: exactly the ref and URL of the
/// extracted context, under their fixed variable names, and nothing when no
/// context was produced.
pub fn child_env(context: &Option<ExecutionContext>) -> (v: Vec<(String, String)>)
    ensures
        context is None ==> v@.len() == 0,
        context matches Some(c) ==> v@.len() == 2 && v@[0].0@ == "RUN_REF"@ && v@[0].1@
            == c.ref_field@ && v@[1].0@ == "RUN_URL"@ && v@[1].1@ == c.url@,
{
    let mut v: Vec<(String, String)> = Vec::new();
    match context {
        Some(c) => {
            v.push(("RUN_REF".to_owned(), c.ref_field.clone()));
            v.push(("RUN_URL".to_owned(), c.url.clone()));
        },
        None => {},
    }
    v
}

/// Argument vector of the shell invocation: the fixed command template run
/// through the shell's command flag.
pub fn shell_invocation(command: &String) -> (v: Vec<String>)
    ensures
        v@.len() == 2,
        v@[0]@ == "-c"@,
        v@[1]@ == command@,
{
    let mut v: Vec<String> = Vec::new();
    v.push("-c".to_owned());
    v.push(command.clone());
    v
}

} // verus!
