//! Colors, as 8-bit RGBA.

use vstd::prelude::*;

verus! {

/// An 8-bit RGBA color.
#[derive(Clone, Copy, Debug, PartialEq, Eq, Hash)]
pub struct Col {
    pub r: u8,
    pub g: u8,
    pub b: u8,
    pub a: u8,
}

impl Col {
    pub fn new(r: u8, g: u8, b: u8, a: u8) -> (c: Self)
        ensures
            c.r == r && c.g == g && c.b == b && c.a == a,
    {
        Self { r, g, b, a }
    }

    /// The same color with another alpha.
    pub fn alpha(self, a: u8) -> (c: Self)
        ensures
            c.r == self.r && c.g == self.g && c.b == self.b && c.a == a,
    {
        Self { a, ..self }
    }

    /// The fully transparent black.
    pub fn clear() -> (c: Self)
        ensures
            c.r == 0 && c.g == 0 && c.b == 0 && c.a == 0,
    {
        Self::new(0, 0, 0, 0)
    }
}

pub fn red() -> (c: Col)
    ensures
        c == (Col { r: 204, g: 51, b: 51, a: 255 }),
{
    Col::new(204, 51, 51, 255)
}

pub fn green() -> (c: Col)
    ensures
        c == (Col { r: 51, g: 204, b: 51, a: 255 }),
{
    Col::new(51, 204, 51, 255)
}

pub fn white() -> (c: Col)
    ensures
        c == (Col { r: 204, g: 204, b: 204, a: 255 }),
{
    Col::new(204, 204, 204, 255)
}

} // verus!
