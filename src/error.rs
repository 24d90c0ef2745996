//! The failures that a control operation can report.

use vstd::prelude::*;

verus! {

/// Why a control operation failed. The worker sends no diagnostics back, so
/// a failure carries no detail beyond its kind.
#[derive(Debug, Clone, Copy, PartialEq, Eq, Structural)]
pub enum ControlError {
    /// Sending a command or receiving its reply failed on the channel.
    Channel,
    /// The worker could not be created or attached.
    Instantiate,
    /// The operation is not supported by the worker's protocol.
    NotImplemented,
}

} // verus!
