//! Allow-listed command execution, split around the one host action.
//!
//! [`plan_command`] yields a [`CommandPlan`] only for allow-listed names, so
//! the host-facing shell can spawn a process only from a plan issued here,
//! with exactly the name and arguments the caller gave.
//! [`complete_command`] turns what the process produced into a
//! [`CommandResult`].

use vstd::prelude::*;
use crate::errors::{ErrorKind, SystemError, policy_message};
use crate::policy::{allowed_command, is_command_allowed};

verus! {

/// Outcome of an executed external process: its decoded output streams and
/// whether it exited successfully.
#[derive(Clone, Debug)]
pub struct CommandResult {
    pub stdout: String,
    pub stderr: String,
    pub success: bool,
}

/// A permit to spawn one process.  A plan can be obtained from
/// [`plan_command`] alone, which issues one only for an allow-listed name;
/// its fields are exactly the name and arguments the caller passed.
#[derive(Clone, Debug)]
pub struct CommandPlan {
    program: String,
    args: Vec<String>,
}

impl CommandPlan {
    /// The executable name the plan permits.
    pub closed spec fn spec_program(&self) -> Seq<char> {
        self.program@
    }

    /// The argument list, passed through verbatim.
    pub closed spec fn spec_args(&self) -> Seq<Seq<char>> {
        self.args.deep_view()
    }

    /// Hands out the name and arguments for the spawn itself.
    pub fn into_parts(self) -> (r: (String, Vec<String>))
        ensures
            r.0@ == self.spec_program(),
            r.1.deep_view() == self.spec_args(),
    {
        (self.program, self.args)
    }
}

/// The allow-list gate of command execution.  For an allow-listed name it
/// issues a plan carrying the literal name and argument list; for any other
/// name it refuses with a policy violation, and no plan — hence no process —
/// can come of the call.
pub fn plan_command(cmd: &str, args: Vec<String>) -> (r: Result<CommandPlan, SystemError>)
    ensures
        r is Ok <==> allowed_command(cmd@),
        r matches Ok(p) ==> p.spec_program() == cmd@ && p.spec_args() == args.deep_view(),
        r matches Err(e) ==> e.kind == ErrorKind::PolicyViolation && e.message@ == policy_message(
            cmd@,
        ),
{
    if is_command_allowed(cmd) {
        Ok(CommandPlan { program: String::from_str(cmd), args })
    } else {
        Err(SystemError::policy_violation(cmd))
    }
}

/// What `String::from_utf8_lossy` decodes the given bytes to.
pub uninterp spec fn lossy_decode(bytes: Seq<u8>) -> Seq<char>;

/// Relies on `String::from_utf8_lossy`: the result depends on the bytes
/// alone, and on valid UTF-8 it is exactly the decoded text.
#[verifier::external_body]
fn decode_output(bytes: &[u8]) -> (r: String)
    ensures
        r@ == lossy_decode(bytes@),
        vstd::utf8::valid_utf8(bytes@) ==> r@ == vstd::utf8::decode_utf8(bytes@),
{
    String::from_utf8_lossy(bytes).into_owned()
}

/// Builds the result of a finished process: both output streams are decoded
/// best-effort (invalid byte sequences replaced, never failing), and the
/// success flag is set exactly when the process exited with code zero.
pub fn complete_command(stdout: Vec<u8>, stderr: Vec<u8>, exit_code: Option<i32>) -> (r:
    CommandResult)
    ensures
        r.stdout@ == lossy_decode(stdout@),
        r.stderr@ == lossy_decode(stderr@),
        r.success == (exit_code == Some(0i32)),
{
    let success = match exit_code {
        Some(code) => code == 0,
        None => false,
    };
    CommandResult {
        stdout: decode_output(stdout.as_slice()),
        stderr: decode_output(stderr.as_slice()),
        success,
    }
}

} // verus!
