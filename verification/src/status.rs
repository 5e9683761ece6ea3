//! The per-request session status state machine.

use vstd::prelude::*;

verus! {

/// Terminal, request-scoped status of a session.
///
/// It starts `Unchanged`, is driven only by the handler-visible session
/// operations (an entry write or removal sets `Changed`, an explicit rotation
/// request sets `Renewed`, an explicit termination request sets `Purged`,
/// each overriding whatever was set before), and is read exactly once by the
/// middleware after the handler returns.
#[derive(Clone, Copy, Debug, PartialEq, Eq, Structural)]
pub enum SessionStatus {
    /// No observed mutation.
    Unchanged,
    /// At least one entry was added, changed or removed.
    Changed,
    /// The caller asked for identifier rotation while keeping the entries.
    Renewed,
    /// The caller asked for session termination.
    Purged,
}

} // verus!
