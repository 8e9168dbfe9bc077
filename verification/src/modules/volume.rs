use vstd::prelude::*;

use crate::common::{wf_hist, Ratio, Trade, MAX_TRADES};
use crate::modules::FeatureModule;
use crate::stats::{lemma_hist_sums_bounded, lemma_sum_by_push, size_of, sum_size};

verus! {

/// Net signed volume: the running sum of signed sizes.
///
/// The convention here is net volume (buys minus sells), not absolute
/// turnover; the absolute total is what the weighted-price module keeps as
/// its denominator.
pub struct ModuleVolume {
    sum: i128,
    hist: Ghost<Seq<Trade>>,
}

/// The net signed volume of a history; zero for an empty one.
pub open spec fn volume_value(h: Seq<Trade>) -> (int, int) {
    (sum_size(h), 1int)
}

impl Default for ModuleVolume {
    /// A fresh accumulator with an empty history.
    fn default() -> (r: Self)
        ensures
            r.inv(),
            r.hist() == Seq::<Trade>::empty(),
    {
        ModuleVolume { sum: 0, hist: Ghost(Seq::empty()) }
    }
}

impl FeatureModule for ModuleVolume {
    closed spec fn hist(&self) -> Seq<Trade> {
        self.hist@
    }

    closed spec fn inv(&self) -> bool {
        &&& wf_hist(self.hist@)
        &&& self.hist@.len() <= MAX_TRADES
        &&& self.sum == sum_size(self.hist@)
    }

    open spec fn value_spec(&self) -> (int, int) {
        volume_value(self.hist())
    }

    fn name(&self) -> (r: &str)
        ensures
            r@ == "Volume"@,
    {
        "Volume"
    }

    fn value(&self) -> (r: Ratio) {
        Ratio { num: self.sum, den: 1 }
    }

    fn update(&mut self, trade: &Trade, init: bool) {
        if init {
            self.sum = 0;
            self.hist = Ghost(Seq::empty());
        }
        proof {
            lemma_hist_sums_bounded(self.hist@);
            lemma_sum_by_push(self.hist@, size_of(), *trade);
        }
        self.sum = self.sum + trade.size as i128;
        self.hist = Ghost(self.hist@.push(*trade));
        proof {
            if init {
                assert(self.hist@ =~= seq![*trade]);
            }
        }
    }
}

} // verus!
