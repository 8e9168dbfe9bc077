use vstd::math::abs;
use vstd::prelude::*;

use crate::common::{wf_hist, Ratio, Trade, MAX_TRADES};
use crate::modules::FeatureModule;
use crate::stats::{
    abs_size_of, lemma_hist_sums_bounded, lemma_sum_by_push, sum_abs_size, sum_weighted_price,
    weighted_price_of,
};

verus! {

/// Volume-weighted average price.
///
/// The statistic is the exact ratio sum(price * |size|) / sum(|size|);
/// before any trade, or while every observed size is zero, the value is
/// undefined.
pub struct ModuleWeightedPrice {
    wsum: i128,
    vsum: i128,
    hist: Ghost<Seq<Trade>>,
}

/// Numerator and denominator of the volume-weighted average price.
pub open spec fn weighted_price_value(h: Seq<Trade>) -> (int, int) {
    (sum_weighted_price(h), sum_abs_size(h))
}

impl Default for ModuleWeightedPrice {
    /// A fresh accumulator with an empty history.
    fn default() -> (r: Self)
        ensures
            r.inv(),
            r.hist() == Seq::<Trade>::empty(),
    {
        ModuleWeightedPrice { wsum: 0, vsum: 0, hist: Ghost(Seq::empty()) }
    }
}

impl FeatureModule for ModuleWeightedPrice {
    closed spec fn hist(&self) -> Seq<Trade> {
        self.hist@
    }

    closed spec fn inv(&self) -> bool {
        &&& wf_hist(self.hist@)
        &&& self.hist@.len() <= MAX_TRADES
        &&& self.wsum == sum_weighted_price(self.hist@)
        &&& self.vsum == sum_abs_size(self.hist@)
    }

    open spec fn value_spec(&self) -> (int, int) {
        weighted_price_value(self.hist())
    }

    fn name(&self) -> (r: &str)
        ensures
            r@ == "WeightedPrice"@,
    {
        "WeightedPrice"
    }

    fn value(&self) -> (r: Ratio) {
        proof {
            lemma_hist_sums_bounded(self.hist@);
        }
        Ratio { num: self.wsum, den: self.vsum }
    }

    fn update(&mut self, trade: &Trade, init: bool) {
        if init {
            self.wsum = 0;
            self.vsum = 0;
            self.hist = Ghost(Seq::empty());
        }
        proof {
            lemma_hist_sums_bounded(self.hist@);
            lemma_sum_by_push(self.hist@, weighted_price_of(), *trade);
            lemma_sum_by_push(self.hist@, abs_size_of(), *trade);
        }
        let a: i64 = if trade.size < 0 {
            -trade.size
        } else {
            trade.size
        };
        proof {
            assert(a as int == abs(trade.size as int));
            assert(-0x4000_0000_0000_0000 <= (trade.price as int) * (a as int)
                <= 0x4000_0000_0000_0000) by (nonlinear_arith)
                requires
                    -0x8000_0000 <= trade.price as int <= 0x8000_0000,
                    0 <= a as int <= 0x8000_0000,
            ;
        }
        let w: i128 = (trade.price as i128) * (a as i128);
        self.wsum = self.wsum + w;
        self.vsum = self.vsum + a as i128;
        self.hist = Ghost(self.hist@.push(*trade));
        proof {
            if init {
                assert(self.hist@ =~= seq![*trade]);
            }
        }
    }
}

} // verus!
