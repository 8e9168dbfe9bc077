use vstd::math::abs;
use vstd::prelude::*;

use crate::common::{wf_hist, Ratio, Trade, MAX_TRADES};
use crate::modules::FeatureModule;
use crate::stats::{
    abs_size_of, buy_size_of, buy_volume, lemma_hist_sums_bounded, lemma_sum_by_push, sum_abs_size,
};

verus! {

/// Share of buyer-initiated volume.
///
/// The statistic is (volume of trades with positive signed size) / (total
/// absolute volume), so it lies in [0, 1] whenever it is defined; it is
/// undefined before any trade and while every observed size is zero.
pub struct ModuleDirectionalVolumeRatio {
    buy_vol: i128,
    total_vol: i128,
    hist: Ghost<Seq<Trade>>,
}

/// Numerator and denominator of the buyer-initiated volume share.
pub open spec fn volume_ratio_value(h: Seq<Trade>) -> (int, int) {
    (buy_volume(h), sum_abs_size(h))
}

impl Default for ModuleDirectionalVolumeRatio {
    /// A fresh accumulator with an empty history.
    fn default() -> (r: Self)
        ensures
            r.inv(),
            r.hist() == Seq::<Trade>::empty(),
    {
        ModuleDirectionalVolumeRatio { buy_vol: 0, total_vol: 0, hist: Ghost(Seq::empty()) }
    }
}

impl FeatureModule for ModuleDirectionalVolumeRatio {
    closed spec fn hist(&self) -> Seq<Trade> {
        self.hist@
    }

    closed spec fn inv(&self) -> bool {
        &&& wf_hist(self.hist@)
        &&& self.hist@.len() <= MAX_TRADES
        &&& self.buy_vol == buy_volume(self.hist@)
        &&& self.total_vol == sum_abs_size(self.hist@)
    }

    open spec fn value_spec(&self) -> (int, int) {
        volume_ratio_value(self.hist())
    }

    fn name(&self) -> (r: &str)
        ensures
            r@ == "DirectionalVolumeRatio"@,
    {
        "DirectionalVolumeRatio"
    }

    fn value(&self) -> (r: Ratio)
        ensures
            0 <= r.num <= r.den,
    {
        proof {
            lemma_hist_sums_bounded(self.hist@);
        }
        Ratio { num: self.buy_vol, den: self.total_vol }
    }

    fn update(&mut self, trade: &Trade, init: bool) {
        if init {
            self.buy_vol = 0;
            self.total_vol = 0;
            self.hist = Ghost(Seq::empty());
        }
        proof {
            lemma_hist_sums_bounded(self.hist@);
            lemma_sum_by_push(self.hist@, buy_size_of(), *trade);
            lemma_sum_by_push(self.hist@, abs_size_of(), *trade);
        }
        let a: i64 = if trade.size < 0 {
            -trade.size
        } else {
            trade.size
        };
        proof {
            assert(a as int == abs(trade.size as int));
        }
        if trade.size > 0 {
            self.buy_vol = self.buy_vol + trade.size as i128;
        }
        self.total_vol = self.total_vol + a as i128;
        self.hist = Ghost(self.hist@.push(*trade));
        proof {
            if init {
                assert(self.hist@ =~= seq![*trade]);
            }
        }
    }
}

} // verus!
