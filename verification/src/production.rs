//! Production: the power that buildings supply and use.

use vstd::prelude::*;

verus! {

/// The power an object generates and the power it drains.
#[derive(Debug, Clone, Copy, PartialEq, Eq, Structural)]
pub struct PowerObject {
    pub power_gen: u32,
    pub power_drain: u32,
}

} // verus!
