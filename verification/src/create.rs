//! The session-creation request: the plain values the command line
//! supplies, with the start directory already resolved by the caller.

use vstd::prelude::*;

verus! {

/// A request to create a session: its name, resolved start directory, the
/// index of the window to focus, the window descriptors (or the demand for
/// one default window), and whether to print instead of persisting.
#[derive(Debug)]
pub struct TmuxpSessionCreation {
    pub session_name: String,
    pub start_directory: String,
    pub focus: usize,
    pub windows_description: Vec<String>,
    pub default: bool,
    pub dump: bool,
}

} // verus!
