//! External tool invocations as plain values.
//!
//! The library never spawns a process itself.  It hands the caller an
//! [`Invocation`] — a program name and its ordered argument vector — and maps
//! the exit outcome the caller reports back to the library's error type.

use vstd::prelude::*;
use crate::errors::BindingsError;
use vstd::string::StringExecFns;

verus! {

/// One external command: the program to spawn and its arguments, in order.
pub struct Invocation {
    pub program: String,
    pub args: Vec<String>,
}

/// Maps the reported exit of an external tool to the library's result:
/// success passes, anything else is a toolchain failure naming the tool.
pub fn process_outcome(tool: &str, exit_ok: bool) -> (r: Result<(), BindingsError>)
    ensures
        exit_ok ==> r is Ok,
        !exit_ok ==> (r matches Err(e) && e matches BindingsError::Toolchain { tool: t } && t@
            == tool@),
{
    if exit_ok {
        Ok(())
    } else {
        Err(BindingsError::Toolchain { tool: String::from_str(tool) })
    }
}

} // verus!
