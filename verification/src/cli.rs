//! The command-line surface: which of the two entry modes was asked for.
//!
//! Argument parsing stays outside the library; these are the parsed values.

use vstd::prelude::*;

verus! {

/// The two entry modes.
#[derive(PartialEq, Eq, Structural)]
pub enum Commands {
    /// Authorize the client session and exit.
    Auth,
    /// Run the bot; exit if the client session is not authorized.
    Run,
}

/// The parsed command line.
pub struct Cli {
    pub command: Commands,
}

} // verus!
