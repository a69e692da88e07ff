//! The commanders of a match: the difficulty of computer opponents.

use vstd::prelude::*;

verus! {

/// How strongly a computer commander plays.
#[derive(Debug, Clone, Copy, PartialEq, Eq, Structural)]
pub enum AIDifficulty {
    Easy,
    Normal,
    Hard,
}

} // verus!
