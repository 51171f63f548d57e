//! Prices: a decimal number held as its integer mantissa and scale
//! (`mantissa / 10^scale`), as the database's decimal type stores it.
use vstd::prelude::*;

verus! {

/// A decimal amount `mantissa / 10^scale`.
#[derive(Clone, Copy, Debug, PartialEq, Eq)]
pub struct Price {
    pub mantissa: i128,
    pub scale: u32,
}

impl Price {
    /// Whether the amount is greater than zero; the scale never changes the sign.
    pub open spec fn is_positive(self) -> bool {
        self.mantissa > 0
    }
}

} // verus!
