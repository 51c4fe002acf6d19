//! Commands understood by the diagnostics console window. The console
//! itself is rendering-toolkit territory and lives outside this library;
//! only the command vocabulary is shared state.

use vstd::prelude::*;

verus! {

/// Commands sent to the console window. `Show` carries the activation
/// instant, in milliseconds.
#[derive(Debug, Clone, Copy, PartialEq, Eq, Structural)]
pub enum ConsoleCmd {
    Show(u64),
}

} // verus!
