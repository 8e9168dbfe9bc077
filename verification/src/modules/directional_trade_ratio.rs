use vstd::prelude::*;

use crate::common::{wf_hist, Ratio, Trade, MAX_TRADES};
use crate::modules::FeatureModule;
use crate::stats::{buy_count, buy_one_of, lemma_hist_sums_bounded, lemma_sum_by_push};

verus! {

/// Share of buyer-initiated trades.
///
/// A trade counts as buyer-initiated exactly when its signed size is
/// positive. The statistic is buy count / total count, so it lies in [0, 1]
/// whenever it is defined; it is undefined before the first trade.
pub struct ModuleDirectionalTradeRatio {
    buys: u64,
    count: u64,
    hist: Ghost<Seq<Trade>>,
}

/// Numerator and denominator of the buyer-initiated trade share.
pub open spec fn trade_ratio_value(h: Seq<Trade>) -> (int, int) {
    (buy_count(h), h.len() as int)
}

impl Default for ModuleDirectionalTradeRatio {
    /// A fresh accumulator with an empty history.
    fn default() -> (r: Self)
        ensures
            r.inv(),
            r.hist() == Seq::<Trade>::empty(),
    {
        ModuleDirectionalTradeRatio { buys: 0, count: 0, hist: Ghost(Seq::empty()) }
    }
}

impl FeatureModule for ModuleDirectionalTradeRatio {
    closed spec fn hist(&self) -> Seq<Trade> {
        self.hist@
    }

    closed spec fn inv(&self) -> bool {
        &&& wf_hist(self.hist@)
        &&& self.hist@.len() <= MAX_TRADES
        &&& self.count == self.hist@.len()
        &&& self.buys == buy_count(self.hist@)
    }

    open spec fn value_spec(&self) -> (int, int) {
        trade_ratio_value(self.hist())
    }

    fn name(&self) -> (r: &str)
        ensures
            r@ == "DirectionalTradeRatio"@,
    {
        "DirectionalTradeRatio"
    }

    fn value(&self) -> (r: Ratio)
        ensures
            0 <= r.num <= r.den,
    {
        proof {
            lemma_hist_sums_bounded(self.hist@);
        }
        Ratio { num: self.buys as i128, den: self.count as i128 }
    }

    fn update(&mut self, trade: &Trade, init: bool) {
        if init {
            self.buys = 0;
            self.count = 0;
            self.hist = Ghost(Seq::empty());
        }
        proof {
            lemma_hist_sums_bounded(self.hist@);
            lemma_sum_by_push(self.hist@, buy_one_of(), *trade);
            assert(buy_one_of()(*trade) == if trade.size > 0 {
                1int
            } else {
                0int
            });
        }
        if trade.size > 0 {
            self.buys = self.buys + 1;
        }
        self.count = self.count + 1;
        self.hist = Ghost(self.hist@.push(*trade));
        proof {
            if init {
                assert(self.hist@ =~= seq![*trade]);
            }
        }
    }
}

} // verus!
