//! A guarded system-access layer for a desktop application shell.
//!
//! The crate mediates the host-system operations that a front-end process
//! may request: file read/write/exists, backup and restore, execution of
//! external commands against a fixed allow-list, and host platform
//! reporting.  The policy decisions, path derivations, message formats and
//! the effects of the file operations are stated in contracts and verified;
//! the host I/O itself is performed by a thin unverified shell around this
//! crate.

pub mod command;
pub mod errors;
pub mod laws;
pub mod policy;
pub mod release;
pub mod system;
pub mod text;
