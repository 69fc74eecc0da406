//! The library's error values, returned to the caller as data.

use vstd::prelude::*;

verus! {

/// The text of a resolution error: it names the missing binary and the
/// underlying lookup failure.
pub open spec fn resolution_message(binary: Seq<char>, cause: Seq<char>) -> Seq<char> {
    "Binary file '"@ + binary + "' does not exists: ("@ + cause + ")"@
}

/// What can go wrong on this side of the process boundary. Spawn failures
/// happen past it and are reported by the launcher, not here.
#[derive(Debug, Clone)]
pub enum AnsibleError {
    /// The configured executable was not found on the search path, or is
    /// not runnable; `cause` carries the lookup's own description.
    Resolution { binary: String, cause: String },
    /// Reserved: compiling the option groups is total today, and no code
    /// path produces this variant.
    Compilation { detail: String },
}

impl AnsibleError {
    /// A human-readable description of the error.
    pub fn message(&self) -> (r: String)
        ensures
            self matches AnsibleError::Resolution { binary, cause } ==> r@ == resolution_message(
                binary@,
                cause@,
            ),
            self matches AnsibleError::Compilation { detail } ==> r@ == detail@,
    {
        match self {
            AnsibleError::Resolution { binary, cause } => {
                let mut r = "Binary file '".to_owned();
                r.append(binary.as_str());
                r.append("' does not exists: (");
                r.append(cause.as_str());
                r.append(")");
                r
            },
            AnsibleError::Compilation { detail } => detail.clone(),
        }
    }
}

} // verus!
