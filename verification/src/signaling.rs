//! What the process does on a signal.

use vstd::prelude::*;

verus! {

/// The signals the process listens for; any other is `Other`.
#[derive(Debug, Clone, Copy, PartialEq, Eq, Structural)]
pub enum Signal {
    Interrupt,
    Terminate,
    Other,
}

/// Whether the signal starts a graceful shutdown: SIGINT and SIGTERM do,
/// and the watcher stops after the first of them; any other is only reported.
pub fn shutdown_on(signal: Signal) -> (r: bool)
    ensures
        r == (signal == Signal::Interrupt || signal == Signal::Terminate),
{
    match signal {
        Signal::Interrupt => true,
        Signal::Terminate => true,
        Signal::Other => false,
    }
}

} // verus!
