//! The error taxonomy of the access layer.
//!
//! Every fallible operation reports a tagged kind together with a
//! human-readable message; the front-end renders the message and may
//! discriminate on the kind.

use vstd::prelude::*;

verus! {

/// What went wrong: the allow-list said no, the file system failed, a backup
/// source was absent, a process could not be created, or a required
/// environment variable was missing.
#[derive(Clone, Copy, Debug, PartialEq, Eq, Structural)]
pub enum ErrorKind {
    PolicyViolation,
    IoError,
    NotFoundError,
    SpawnError,
    EnvironmentError,
}

/// An error of the access layer: its kind and the message shown to the user.
#[derive(Clone, Debug)]
pub struct SystemError {
    pub kind: ErrorKind,
    pub message: String,
}

/// The message `context` + ": " + `detail`.
pub open spec fn with_context(context: Seq<char>, detail: Seq<char>) -> Seq<char> {
    context + ": "@ + detail
}

/// The message of an allow-list rejection of `cmd`:
/// `Command '<cmd>' is not allowed`.
pub open spec fn policy_message(cmd: Seq<char>) -> Seq<char> {
    "Command '"@ + cmd + "' is not allowed"@
}

impl SystemError {
    /// An error of the given kind whose message is `context` + ": " + `detail`.
    pub fn with_detail(kind: ErrorKind, context: &str, detail: &str) -> (e: SystemError)
        ensures
            e.kind == kind,
            e.message@ == with_context(context@, detail@),
    {
        let message = String::from_str(context).concat(": ").concat(detail);
        proof {
            assert(message@ =~= with_context(context@, detail@));
        }
        SystemError { kind, message }
    }

    /// The rejection of `cmd` by the command allow-list.
    pub fn policy_violation(cmd: &str) -> (e: SystemError)
        ensures
            e.kind == ErrorKind::PolicyViolation,
            e.message@ == policy_message(cmd@),
    {
        let message = String::from_str("Command '").concat(cmd).concat("' is not allowed");
        proof {
            assert(message@ =~= policy_message(cmd@));
        }
        SystemError { kind: ErrorKind::PolicyViolation, message }
    }
}

} // verus!
