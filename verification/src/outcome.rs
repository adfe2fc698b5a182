//! What a driver reports.

use vstd::prelude::*;

verus! {

/// What the driver saw of the outside work that an exchange is waiting for.
#[derive(Debug)]
pub enum Outcome {
    /// The work has not finished; the driver will be woken when it can go on.
    Pending,
    /// The work finished. For a write of body bytes the number is how many of
    /// them were taken; for any other work it says nothing.
    Ready(usize),
    /// The work failed.
    Failed(std::io::Error),
}

} // verus!
