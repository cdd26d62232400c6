//! Decimal numbers as the registries hand them out.

use vstd::prelude::*;

verus! {

/// A decimal number, written as its digits and the count of those that
/// stand behind the point: `Rate { mantissa: 18, scale: 2 }` is 0.18.
#[derive(Debug, Clone, Copy, PartialEq, Eq, Structural)]
pub struct Rate {
    pub mantissa: i64,
    pub scale: u32,
}

impl Rate {
    /// The number with the digits `mantissa`, `scale` of them behind the
    /// point.
    pub fn new(mantissa: i64, scale: u32) -> (r: Rate)
        ensures
            r == (Rate { mantissa, scale }),
    {
        Rate { mantissa, scale }
    }

    /// Zero.
    pub fn zero() -> (r: Rate)
        ensures
            r == (Rate { mantissa: 0, scale: 0 }),
    {
        Rate { mantissa: 0, scale: 0 }
    }
}

} // verus!
