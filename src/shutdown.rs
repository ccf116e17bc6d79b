//! The drain at shutdown: once the flag is set, the process waits, polling,
//! until no connection is live.
use vstd::prelude::*;

verus! {

/// How long the drain waits between two reads of the live count.
pub const DRAIN_POLL_MILLIS: u64 = 1000;

/// What the drain does after reading the live count.
#[derive(PartialEq, Eq, Structural, Clone, Copy, Debug)]
pub enum DrainAction {
    /// Connections are still live: sleep one poll interval and read again.
    Wait,
    /// No connection is live: the process may exit.
    Exit,
}

/// Decides one poll of the drain: the process exits only once the live
/// count has reached zero.
pub fn drain_step(live: u32) -> (r: DrainAction)
    ensures
        r == DrainAction::Exit <==> live == 0,
        r == DrainAction::Wait <==> live > 0,
{
    if live == 0 {
        DrainAction::Exit
    } else {
        DrainAction::Wait
    }
}

} // verus!
