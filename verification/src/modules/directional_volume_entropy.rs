use vstd::math::abs;
use vstd::prelude::*;

use crate::common::{wf_hist, Ratio, Trade, MAX_TRADES};
use crate::modules::FeatureModule;
use crate::stats::{
    abs_size_of, buy_size_of, buy_volume, lemma_hist_sums_bounded, lemma_sum_by_push, sum_abs_size,
};

verus! {

/// Direction distribution of the volume, for the volume entropy.
///
/// The accumulators are the buy and sell absolute volumes. The module
/// reports the buyer share p = buy volume / total volume of the two-outcome
/// volume-direction distribution exactly; the Shannon entropy
/// -p*ln(p) - (1-p)*ln(1-p) (natural logarithm, with the 0*ln(0) = 0
/// convention) is a transcendental function of that share and is the
/// caller's finishing step.
pub struct ModuleDirectionalVolumeEntropy {
    buy_vol: i128,
    sell_vol: i128,
    hist: Ghost<Seq<Trade>>,
}

/// Numerator and denominator of the buyer share of the volume-direction
/// distribution.
pub open spec fn volume_entropy_share(h: Seq<Trade>) -> (int, int) {
    (buy_volume(h), sum_abs_size(h))
}

impl Default for ModuleDirectionalVolumeEntropy {
    /// A fresh accumulator with an empty history.
    fn default() -> (r: Self)
        ensures
            r.inv(),
            r.hist() == Seq::<Trade>::empty(),
    {
        ModuleDirectionalVolumeEntropy { buy_vol: 0, sell_vol: 0, hist: Ghost(Seq::empty()) }
    }
}

impl FeatureModule for ModuleDirectionalVolumeEntropy {
    closed spec fn hist(&self) -> Seq<Trade> {
        self.hist@
    }

    closed spec fn inv(&self) -> bool {
        &&& wf_hist(self.hist@)
        &&& self.hist@.len() <= MAX_TRADES
        &&& self.buy_vol == buy_volume(self.hist@)
        &&& self.buy_vol + self.sell_vol == sum_abs_size(self.hist@)
        &&& self.sell_vol >= 0
    }

    open spec fn value_spec(&self) -> (int, int) {
        volume_entropy_share(self.hist())
    }

    fn name(&self) -> (r: &str)
        ensures
            r@ == "DirectionalVolumeEntropy"@,
    {
        "DirectionalVolumeEntropy"
    }

    fn value(&self) -> (r: Ratio)
        ensures
            0 <= r.num <= r.den,
    {
        proof {
            lemma_hist_sums_bounded(self.hist@);
        }
        Ratio { num: self.buy_vol, den: self.buy_vol + self.sell_vol }
    }

    fn update(&mut self, trade: &Trade, init: bool) {
        if init {
            self.buy_vol = 0;
            self.sell_vol = 0;
            self.hist = Ghost(Seq::empty());
        }
        proof {
            lemma_hist_sums_bounded(self.hist@);
            lemma_sum_by_push(self.hist@, buy_size_of(), *trade);
            lemma_sum_by_push(self.hist@, abs_size_of(), *trade);
        }
        let a: i64 = if trade.size < 0 {
            -trade.size
        } else {
            trade.size
        };
        proof {
            assert(a as int == abs(trade.size as int));
        }
        if trade.size > 0 {
            self.buy_vol = self.buy_vol + trade.size as i128;
        } else {
            self.sell_vol = self.sell_vol + a as i128;
        }
        self.hist = Ghost(self.hist@.push(*trade));
        proof {
            if init {
                assert(self.hist@ =~= seq![*trade]);
            }
        }
    }
}

} // verus!
