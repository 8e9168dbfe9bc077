use vstd::prelude::*;

use crate::common::{wf_hist, Ratio, Trade, MAX_TRADES};
use crate::modules::FeatureModule;
use crate::stats::{
    lemma_hist_sums_bounded, lemma_sum_by_push, size_of, sq_size_of, sum_size, sum_sq_size,
};

verus! {

/// Dispersion of the observed signed sizes, kept as single-pass running sums.
///
/// The module reports the exact population variance
/// (n * sum(size^2) - sum(size)^2) / n^2 of the signed sizes; the standard
/// deviation is its square root, an irrational finishing step left to the
/// caller. The convention is population variance (divide by n, not n - 1).
pub struct ModuleStdDevSizes {
    count: u64,
    sum: i128,
    sumsq: i128,
    hist: Ghost<Seq<Trade>>,
}

/// Numerator and denominator of the population variance of signed sizes,
/// undefined for an empty history.
pub open spec fn size_variance_value(h: Seq<Trade>) -> (int, int) {
    if h.len() == 0 {
        (0int, 0int)
    } else {
        (
            (h.len() as int) * sum_sq_size(h) - sum_size(h) * sum_size(h),
            (h.len() as int) * (h.len() as int),
        )
    }
}

impl ModuleStdDevSizes {
    /// A fresh accumulator with an empty history.
    pub fn new() -> (r: Self)
        ensures
            r.inv(),
            r.hist() == Seq::<Trade>::empty(),
    {
        ModuleStdDevSizes { count: 0, sum: 0, sumsq: 0, hist: Ghost(Seq::empty()) }
    }
}

impl FeatureModule for ModuleStdDevSizes {
    closed spec fn hist(&self) -> Seq<Trade> {
        self.hist@
    }

    closed spec fn inv(&self) -> bool {
        &&& wf_hist(self.hist@)
        &&& self.hist@.len() <= MAX_TRADES
        &&& self.count == self.hist@.len()
        &&& self.sum == sum_size(self.hist@)
        &&& self.sumsq == sum_sq_size(self.hist@)
    }

    open spec fn value_spec(&self) -> (int, int) {
        size_variance_value(self.hist())
    }

    fn name(&self) -> (r: &str)
        ensures
            r@ == "StdDevSizes"@,
    {
        "StdDevSizes"
    }

    fn value(&self) -> (r: Ratio) {
        if self.count == 0 {
            Ratio { num: 0, den: 0 }
        } else {
            proof {
                lemma_hist_sums_bounded(self.hist@);
                assert(0 <= (self.count as int) * (self.sumsq as int)
                    <= 0x4000_0000_0000_0000_0000_0000_0000_0000) by (nonlinear_arith)
                    requires
                        0 <= self.count as int <= 0x1_0000_0000,
                        0 <= self.sumsq as int <= 0x4000_0000_0000_0000_0000_0000,
                ;
                assert(0 <= (self.sum as int) * (self.sum as int)
                    <= 0x4000_0000_0000_0000_0000_0000_0000_0000) by (nonlinear_arith)
                    requires
                        -0x8000_0000_0000_0000 <= self.sum as int <= 0x8000_0000_0000_0000,
                ;
                assert(0 <= (self.count as int) * (self.count as int) <= 0x1_0000_0000_0000_0000)
                    by (nonlinear_arith)
                    requires
                        0 <= self.count as int <= 0x1_0000_0000,
                ;
            }
            let n = self.count as i128;
            let a = n * self.sumsq;
            let b = self.sum * self.sum;
            Ratio { num: a - b, den: n * n }
        }
    }

    fn update(&mut self, trade: &Trade, init: bool) {
        if init {
            self.count = 0;
            self.sum = 0;
            self.sumsq = 0;
            self.hist = Ghost(Seq::empty());
        }
        proof {
            lemma_hist_sums_bounded(self.hist@);
            lemma_sum_by_push(self.hist@, size_of(), *trade);
            lemma_sum_by_push(self.hist@, sq_size_of(), *trade);
            assert(0 <= (trade.size as int) * (trade.size as int) <= 0x4000_0000_0000_0000)
                by (nonlinear_arith)
                requires
                    -0x8000_0000 <= trade.size as int <= 0x8000_0000,
            ;
        }
        let z = trade.size as i128;
        self.count = self.count + 1;
        self.sum = self.sum + z;
        self.sumsq = self.sumsq + z * z;
        self.hist = Ghost(self.hist@.push(*trade));
        proof {
            if init {
                assert(self.hist@ =~= seq![*trade]);
            }
        }
    }
}

} // verus!
