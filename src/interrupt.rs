//! Interrupts.

use vstd::prelude::*;

verus! {

/// What ended a synchronous wait for an interrupt.
#[derive(Copy, Clone, Debug, Eq, PartialEq, Hash, Structural)]
pub enum SyncWaitResult {
    Timeout,
    RisingEdge,
    FallingEdge,
    Both,
}

} // verus!
