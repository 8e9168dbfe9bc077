use vstd::prelude::*;

verus! {

/// Largest number of trades one accumulation interval may hold. The cap keeps
/// every running sum in this crate inside `i128` without rounding.
pub const MAX_TRADES: u64 = 0x1_0000_0000;

/// Largest magnitude a trade's price may have (fixed-point units).
pub const PRICE_BOUND: i64 = 0x8000_0000;

/// Largest magnitude a trade's size may have (fixed-point units).
pub const SIZE_BOUND: i64 = 0x8000_0000;

/// One executed transaction tick.
///
/// `price` and `size` are integers in the caller's fixed-point scale. The
/// sign of `size` encodes the trade direction: positive means
/// buyer-initiated, negative means seller-initiated, and the magnitude is the
/// traded quantity. Timestamps are an integer tick counter; feeding trades in
/// non-decreasing timestamp order is a caller obligation, not an enforced
/// invariant.
#[derive(Clone, Copy, PartialEq, Eq, Structural, Debug)]
pub struct Trade {
    pub timestamp: u64,
    pub price: i64,
    pub size: i64,
}

impl Trade {
    /// Bounds under which every accumulator stays exact: prices and sizes
    /// within the fixed-point range the running sums are dimensioned for.
    pub open spec fn wf(self) -> bool {
        &&& -PRICE_BOUND <= self.price <= PRICE_BOUND
        &&& -SIZE_BOUND <= self.size <= SIZE_BOUND
    }
}

/// Every trade of a history is within bounds.
pub open spec fn wf_hist(h: Seq<Trade>) -> bool {
    forall|i: int| 0 <= i < h.len() ==> (#[trigger] h[i]).wf()
}

/// An exact rational statistic.
///
/// A denominator of zero encodes "undefined", the exact-arithmetic analogue
/// of the non-finite value a degenerate floating-point computation would
/// yield (no trades observed yet, zero total volume, zero time span). No
/// operation here ever divides; consumers that want a scalar perform the one
/// division (or its transcendental finishing step) themselves.
#[derive(Clone, Copy, PartialEq, Eq, Structural, Debug)]
pub struct Ratio {
    pub num: i128,
    pub den: i128,
}

impl Ratio {
    /// A ratio is meaningful only when its denominator is positive.
    pub open spec fn is_defined(self) -> bool {
        self.den > 0
    }
}

} // verus!
