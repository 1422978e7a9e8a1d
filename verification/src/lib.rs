//! Command-execution core of a canister scripting tool.
//!
//! A script is an ordered list of commands (bindings, assertions, control
//! flow, identity switches, file inclusion) run against a mutable session.
//! The interpreter is a suspending state machine: whatever needs the outside
//! world (reading a script file, parsing script text, a remote canister
//! call, a hardware identity, interface metadata) is handed back to the
//! caller as an [`exec::Action`], and the caller resumes the machine with an
//! [`exec::Event`]. Everything else — sequencing, control flow, the
//! assertion protocol, identity resolution and caching, the
//! working-directory discipline around script inclusion — is verified here.

use vstd::prelude::*;

pub mod command;
pub mod dict;
pub mod exec;
pub mod ident;
pub mod paths;
pub mod value;

verus! {

/// The interpreter's error taxonomy. The first failing command aborts the
/// remainder of every enclosing command list; nothing is recovered inside
/// the command language (the one exception: a fail-safe load's read error).
#[derive(Debug, PartialEq)]
pub enum Error {
    /// Malformed script text, or a failed textual substitution over it.
    Parse(String),
    /// Expression evaluation failed: unknown variable or failed remote call.
    Eval(String),
    /// An `Assert` mismatch, carrying both evaluated values.
    AssertionFailure(crate::value::Value, crate::value::Value),
    /// A value of the wrong kind where a specific kind is demanded.
    Type(String),
    /// An unreadable script file, reported with the failing path.
    Io(Vec<u8>),
    /// Malformed key material, hardware failure, or principal derivation
    /// failure.
    Identity(String),
    /// Malformed configuration text.
    Config(String),
}

} // verus!
