//! Executable resolution: the existence and permission check made before
//! any spawn. Resolution never runs the program it looks for.

use vstd::prelude::*;

use crate::error::AnsibleError;

verus! {

/// Relies on `which::which`: searches the process's configured executable
/// search locations for `binary` and reports whether an executable match
/// exists, handing back the lookup error's display text on failure. The
/// outcome depends on the environment (the search path and what is on
/// disk), so the contract promises nothing of it.
#[verifier::external_body]
fn search_path_lookup(binary: &str) -> (r: Result<(), String>) {
    match which::which(binary) {
        Ok(_) => Ok(()),
        Err(err) => Err(format!("{}", err)),
    }
}

/// Checks that `binary` names an executable on the search path, without
/// running it. Whatever the lookup reports, a failure comes back as a
/// resolution error naming the binary and the underlying cause.
pub fn verify_binary(binary: &str) -> (r: Result<(), AnsibleError>)
    ensures
        r matches Err(e) ==> (e matches AnsibleError::Resolution { binary: b, .. } && b@
            == binary@),
{
    match search_path_lookup(binary) {
        Ok(_) => Ok(()),
        Err(cause) => Err(AnsibleError::Resolution { binary: binary.to_owned(), cause }),
    }
}

/// Runs compiled commands. The spawn itself happens past the process
/// boundary and belongs to the launcher; this side owns the resolution
/// check that precedes every spawn.
#[derive(Debug, Clone)]
pub struct DefaultExecutor {}

impl DefaultExecutor {
    /// The decision half of running `command`: its first token must name
    /// an executable on the search path. A launcher spawns the command
    /// only after this check has passed, so a missing binary is reported
    /// before any process is created.
    pub fn verify_command(&self, command: &Vec<String>) -> (r: Result<(), AnsibleError>)
        requires
            command@.len() > 0,
        ensures
            r matches Err(e) ==> (e matches AnsibleError::Resolution { binary: b, .. } && b@
                == command@[0]@),
    {
        verify_binary(command[0].as_str())
    }
}

} // verus!
