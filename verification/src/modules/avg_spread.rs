use vstd::math::abs;
use vstd::prelude::*;

use crate::common::{wf_hist, Ratio, Trade, MAX_TRADES};
use crate::modules::FeatureModule;

verus! {

/// Mean absolute price change between consecutive trades.
///
/// The statistic is sum(|delta|) / (n - 1) over the n - 1 consecutive price
/// deltas of an n-trade history; with fewer than two trades it is undefined.
/// It is meaningful only if trades arrive in timestamp order, which is a
/// caller obligation.
pub struct ModuleAvgSpread {
    prev: i64,
    count: u64,
    sumad: i128,
    hist: Ghost<Seq<Trade>>,
}

/// Sum of the absolute consecutive price deltas of a history.
pub open spec fn sum_abs_spread(h: Seq<Trade>) -> int
    decreases h.len(),
{
    if h.len() < 2 {
        0
    } else {
        sum_abs_spread(h.drop_last()) + abs(
            h[h.len() - 1].price as int - h[h.len() - 2].price as int,
        )
    }
}

/// Numerator and denominator of the mean absolute consecutive price delta,
/// undefined with fewer than two trades.
pub open spec fn avg_spread_value(h: Seq<Trade>) -> (int, int) {
    if h.len() < 2 {
        (0int, 0int)
    } else {
        (sum_abs_spread(h), h.len() - 1)
    }
}

impl Default for ModuleAvgSpread {
    /// A fresh accumulator with an empty history.
    fn default() -> (r: Self)
        ensures
            r.inv(),
            r.hist() == Seq::<Trade>::empty(),
    {
        ModuleAvgSpread { prev: 0, count: 0, sumad: 0, hist: Ghost(Seq::empty()) }
    }
}

impl FeatureModule for ModuleAvgSpread {
    closed spec fn hist(&self) -> Seq<Trade> {
        self.hist@
    }

    closed spec fn inv(&self) -> bool {
        &&& wf_hist(self.hist@)
        &&& self.hist@.len() <= MAX_TRADES
        &&& self.count == self.hist@.len()
        &&& (self.hist@.len() >= 1 ==> self.prev == self.hist@.last().price)
        &&& self.sumad == sum_abs_spread(self.hist@)
        &&& 0 <= self.sumad <= (self.hist@.len() as int) * 0x1_0000_0000
    }

    open spec fn value_spec(&self) -> (int, int) {
        avg_spread_value(self.hist())
    }

    fn name(&self) -> (r: &str)
        ensures
            r@ == "AvgSpread"@,
    {
        "AvgSpread"
    }

    fn value(&self) -> (r: Ratio) {
        if self.count >= 2 {
            Ratio { num: self.sumad, den: (self.count - 1) as i128 }
        } else {
            Ratio { num: 0, den: 0 }
        }
    }

    fn update(&mut self, trade: &Trade, init: bool) {
        if init {
            self.count = 0;
            self.sumad = 0;
            self.hist = Ghost(Seq::empty());
        }
        let ghost h0 = self.hist@;
        if self.count == 0 {
            self.prev = trade.price;
        } else {
            proof {
                assert(h0[h0.len() - 1].wf());
            }
            let d: i64 = trade.price - self.prev;
            let ad: i64 = if d < 0 {
                -d
            } else {
                d
            };
            self.sumad = self.sumad + ad as i128;
            self.prev = trade.price;
        }
        self.count = self.count + 1;
        self.hist = Ghost(h0.push(*trade));
        proof {
            assert(h0.push(*trade).drop_last() =~= h0);
            if init {
                assert(self.hist@ =~= seq![*trade]);
            }
        }
    }
}

} // verus!
