use vstd::prelude::*;

verus! {

/// A display color, packed as `0xRRGGBB`.
#[derive(Debug, Clone, Copy, PartialEq, Eq, Structural)]
pub struct Color(pub u32);

impl Color {
    /// Leaves the choice of the color to the profiler.
    pub fn unspecified() -> (color: Color)
        ensures
            color == Color(0),
    {
        Color(0)
    }

    /// The packed value, as the sink takes it.
    pub fn as_u32(&self) -> (packed: u32)
        ensures
            packed == self.0,
    {
        self.0
    }
}

} // verus!
