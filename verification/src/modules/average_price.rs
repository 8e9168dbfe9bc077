use vstd::prelude::*;

use crate::common::{wf_hist, Ratio, Trade, MAX_TRADES};
use crate::modules::FeatureModule;
use crate::stats::{lemma_hist_sums_bounded, lemma_sum_by_push, price_of, sum_price};

verus! {

/// Arithmetic mean of the observed prices.
///
/// The statistic is the exact ratio (sum of prices) / (number of trades);
/// before the first trade of an interval both are zero and the value is
/// undefined, matching a 0/0 read.
pub struct ModuleAveragePrice {
    count: u64,
    sum: i128,
    hist: Ghost<Seq<Trade>>,
}

/// Numerator and denominator of the mean price over a history.
pub open spec fn average_price_value(h: Seq<Trade>) -> (int, int) {
    (sum_price(h), h.len() as int)
}

impl Default for ModuleAveragePrice {
    /// A fresh accumulator with an empty history.
    fn default() -> (r: Self)
        ensures
            r.inv(),
            r.hist() == Seq::<Trade>::empty(),
    {
        ModuleAveragePrice { count: 0, sum: 0, hist: Ghost(Seq::empty()) }
    }
}

impl FeatureModule for ModuleAveragePrice {
    closed spec fn hist(&self) -> Seq<Trade> {
        self.hist@
    }

    closed spec fn inv(&self) -> bool {
        &&& wf_hist(self.hist@)
        &&& self.hist@.len() <= MAX_TRADES
        &&& self.count == self.hist@.len()
        &&& self.sum == sum_price(self.hist@)
    }

    open spec fn value_spec(&self) -> (int, int) {
        average_price_value(self.hist())
    }

    fn name(&self) -> (r: &str)
        ensures
            r@ == "AveragePrice"@,
    {
        "AveragePrice"
    }

    fn value(&self) -> (r: Ratio) {
        Ratio { num: self.sum, den: self.count as i128 }
    }

    fn update(&mut self, trade: &Trade, init: bool) {
        if init {
            self.count = 0;
            self.sum = 0;
            self.hist = Ghost(Seq::empty());
        }
        proof {
            lemma_hist_sums_bounded(self.hist@);
            lemma_sum_by_push(self.hist@, price_of(), *trade);
        }
        self.count = self.count + 1;
        self.sum = self.sum + trade.price as i128;
        self.hist = Ghost(self.hist@.push(*trade));
        proof {
            if init {
                assert(self.hist@ =~= seq![*trade]);
            }
        }
    }
}

} // verus!
