use vstd::prelude::*;

verus! {

/// A stable handle to a USB device: the position of its entry in the
/// identity table, issued once and never reused.
#[derive(Copy, Clone, Debug, PartialEq, Eq, Structural, PartialOrd, Ord, Hash)]
pub struct Id(pub u32);

impl Id {
    /// The table position this identifier designates.
    pub open spec fn index(self) -> nat {
        self.0 as nat
    }

    /// The table position, as an index usable on a `Vec`.
    pub fn as_index(self) -> (r: usize)
        ensures
            r as nat == self.index(),
    {
        self.0 as usize
    }
}

} // verus!
