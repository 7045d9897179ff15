//! The transfer request.
//!
//! What one run was asked to do, immutable once constructed from the
//! command line or an interactive prompt.  The source and destination may
//! each arrive as a named flag, a positional argument, both, or neither;
//! the named flag wins, and only when both are absent is the operator
//! prompted — that prompting happens outside the library.

use vstd::prelude::*;

verus! {

/// What one run was asked to do.
pub struct TransferRequest {
    /// The file or directory to copy.
    pub source: String,
    /// Where the copy should land.
    pub destination: String,
    /// Print a success line per copied file.
    pub verbose: bool,
    /// Skip the temporary-file protection and write destinations directly.
    pub fast_mode: bool,
    /// Reduce the reporter's update frequency.
    pub low_animation: bool,
}

/// Resolves one path argument given both spellings: the named flag wins;
/// only when both are absent is there nothing to act on yet.
pub fn resolve_arg(named: Option<String>, positional: Option<String>) -> (r: Option<String>)
    ensures
        named is Some ==> r == named,
        named is None ==> r == positional,
{
    match named {
        Some(s) => Some(s),
        None => positional,
    }
}

} // verus!
