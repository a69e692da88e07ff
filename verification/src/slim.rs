//! Disk space minimizing: components that have nothing worth saving are left
//! out of save files.

use vstd::prelude::*;

verus! {

/// Disk Space Minimizer. Returns [None] if there is nothing to save.
pub trait Slim where Self: Sized {
    /// The value holds nothing that needs saving.
    spec fn nothing_to_save(&self) -> bool;

    /// `copy` holds everything that `self` holds.
    spec fn same_content(&self, copy: &Self) -> bool;

    /// `None` when there is nothing to save, else a copy of the value.
    fn slim(&self) -> (r: Option<Self>)
        ensures
            r is None <==> self.nothing_to_save(),
            r matches Some(v) ==> self.same_content(&v),
    ;
}

} // verus!
