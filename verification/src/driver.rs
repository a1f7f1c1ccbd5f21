//! Display drivers and their shared handle type.

pub mod dx11;
pub mod dxgi;

use vstd::prelude::*;

verus! {

/// An opaque handle a display driver hands out to identify one display.
#[derive(Debug, Clone, Copy, PartialEq, Eq, PartialOrd, Ord, Hash, Structural)]
pub struct DisplayHandle(pub usize);

impl DisplayHandle {
    /// The ordinal this handle stands for.
    pub fn index(&self) -> (r: usize)
        ensures
            r == self.0,
    {
        self.0
    }
}

} // verus!
