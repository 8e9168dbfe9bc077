use vstd::prelude::*;

use crate::common::{wf_hist, Ratio, Trade, MAX_TRADES};
use crate::modules::FeatureModule;
use crate::stats::{buy_count, buy_one_of, lemma_hist_sums_bounded, lemma_sum_by_push};

verus! {

/// Direction distribution of the trades, for the trade-count entropy.
///
/// The accumulators are the buy and sell trade counts. The module reports
/// the buyer share p = buys / (buys + sells) of the two-outcome direction
/// distribution exactly; the Shannon entropy -p*ln(p) - (1-p)*ln(1-p)
/// (natural logarithm, with the 0*ln(0) = 0 convention) is a transcendental
/// function of that share and is the caller's finishing step.
pub struct ModuleDirectionalTradeEntropy {
    buys: u64,
    sells: u64,
    hist: Ghost<Seq<Trade>>,
}

/// Numerator and denominator of the buyer share of the trade-count
/// direction distribution.
pub open spec fn trade_entropy_share(h: Seq<Trade>) -> (int, int) {
    (buy_count(h), h.len() as int)
}

impl Default for ModuleDirectionalTradeEntropy {
    /// A fresh accumulator with an empty history.
    fn default() -> (r: Self)
        ensures
            r.inv(),
            r.hist() == Seq::<Trade>::empty(),
    {
        ModuleDirectionalTradeEntropy { buys: 0, sells: 0, hist: Ghost(Seq::empty()) }
    }
}

impl FeatureModule for ModuleDirectionalTradeEntropy {
    closed spec fn hist(&self) -> Seq<Trade> {
        self.hist@
    }

    closed spec fn inv(&self) -> bool {
        &&& wf_hist(self.hist@)
        &&& self.hist@.len() <= MAX_TRADES
        &&& self.buys == buy_count(self.hist@)
        &&& self.buys + self.sells == self.hist@.len()
    }

    open spec fn value_spec(&self) -> (int, int) {
        trade_entropy_share(self.hist())
    }

    fn name(&self) -> (r: &str)
        ensures
            r@ == "DirectionalTradeEntropy"@,
    {
        "DirectionalTradeEntropy"
    }

    fn value(&self) -> (r: Ratio)
        ensures
            0 <= r.num <= r.den,
    {
        proof {
            lemma_hist_sums_bounded(self.hist@);
        }
        Ratio { num: self.buys as i128, den: (self.buys + self.sells) as i128 }
    }

    fn update(&mut self, trade: &Trade, init: bool) {
        if init {
            self.buys = 0;
            self.sells = 0;
            self.hist = Ghost(Seq::empty());
        }
        proof {
            lemma_hist_sums_bounded(self.hist@);
            lemma_sum_by_push(self.hist@, buy_one_of(), *trade);
            assert(buy_one_of()(*trade) == if trade.size > 0 {
                1int
            } else {
                0int
            });
        }
        if trade.size > 0 {
            self.buys = self.buys + 1;
        } else {
            self.sells = self.sells + 1;
        }
        self.hist = Ghost(self.hist@.push(*trade));
        proof {
            if init {
                assert(self.hist@ =~= seq![*trade]);
            }
        }
    }
}

} // verus!
