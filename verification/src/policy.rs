//! The command allow-list: the one security policy of the layer.
//!
//! Only a fixed set of executable names may be spawned.  The check is
//! case-sensitive and exact-match, with no path normalization; arguments are
//! deliberately not inspected (the caller owns their validation).

use vstd::prelude::*;
use crate::text::str_eq;

verus! {

/// The fixed allow-list: exactly these executable names may be run.
pub open spec fn allowed_command(cmd: Seq<char>) -> bool {
    ||| cmd == "killall"@
    ||| cmd == "ps"@
    ||| cmd == "ls"@
    ||| cmd == "cat"@
    ||| cmd == "mkdir"@
    ||| cmd == "rm"@
    ||| cmd == "pgrep"@
    ||| cmd == "open"@
}

/// Whether `cmd` is a member of the fixed allow-list.
pub fn is_command_allowed(cmd: &str) -> (r: bool)
    ensures
        r == allowed_command(cmd@),
{
    str_eq(cmd, "killall") || str_eq(cmd, "ps") || str_eq(cmd, "ls") || str_eq(cmd, "cat")
        || str_eq(cmd, "mkdir") || str_eq(cmd, "rm") || str_eq(cmd, "pgrep") || str_eq(
        cmd,
        "open",
    )
}

} // verus!
