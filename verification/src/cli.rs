//! The subcommand protocol: argument validation, then execution.

use vstd::prelude::*;

use crate::errors::Errcode;

verus! {

/// One command-line subcommand.  Implementors live outside the verified
/// core (they do the I/O); the trait only fixes the calling order.
pub trait CliSubCommand {
    /// Checks the arguments before any work is done.
    fn validate_args(&self) -> Result<(), Errcode>;

    /// Performs the subcommand's work.
    fn execute_command(&self) -> Result<(), Errcode>;
}

/// Runs one subcommand: validates its arguments, then executes it; a
/// validation failure is reported without executing.
pub fn subcmd<T: CliSubCommand>(args: &T) -> Result<(), Errcode> {
    match args.validate_args() {
        Ok(()) => args.execute_command(),
        Err(e) => Err(e),
    }
}

} // verus!
