use vstd::prelude::*;

use crate::common::{wf_hist, Ratio, Trade, MAX_TRADES};
use crate::modules::FeatureModule;

verus! {

/// Most recent price change between consecutive trades.
///
/// The statistic needs two trades to exist; with fewer it is undefined.
/// It is meaningful only if trades arrive in timestamp order, which is a
/// caller obligation.
pub struct ModuleLastSpread {
    prev: i64,
    delta: i64,
    count: u64,
    hist: Ghost<Seq<Trade>>,
}

/// The latest consecutive price delta of a history, undefined with fewer
/// than two trades.
pub open spec fn last_spread_value(h: Seq<Trade>) -> (int, int) {
    if h.len() < 2 {
        (0int, 0int)
    } else {
        (h[h.len() - 1].price - h[h.len() - 2].price, 1int)
    }
}

impl Default for ModuleLastSpread {
    /// A fresh accumulator with an empty history.
    fn default() -> (r: Self)
        ensures
            r.inv(),
            r.hist() == Seq::<Trade>::empty(),
    {
        ModuleLastSpread { prev: 0, delta: 0, count: 0, hist: Ghost(Seq::empty()) }
    }
}

impl FeatureModule for ModuleLastSpread {
    closed spec fn hist(&self) -> Seq<Trade> {
        self.hist@
    }

    closed spec fn inv(&self) -> bool {
        &&& wf_hist(self.hist@)
        &&& self.hist@.len() <= MAX_TRADES
        &&& self.count == self.hist@.len()
        &&& (self.hist@.len() >= 1 ==> self.prev == self.hist@.last().price)
        &&& (self.hist@.len() >= 2 ==> self.delta == self.hist@[self.hist@.len() - 1].price
            - self.hist@[self.hist@.len() - 2].price)
    }

    open spec fn value_spec(&self) -> (int, int) {
        last_spread_value(self.hist())
    }

    fn name(&self) -> (r: &str)
        ensures
            r@ == "LastSpread"@,
    {
        "LastSpread"
    }

    fn value(&self) -> (r: Ratio) {
        if self.count >= 2 {
            Ratio { num: self.delta as i128, den: 1 }
        } else {
            Ratio { num: 0, den: 0 }
        }
    }

    fn update(&mut self, trade: &Trade, init: bool) {
        if init {
            self.count = 0;
            self.hist = Ghost(Seq::empty());
        }
        let ghost h0 = self.hist@;
        if self.count == 0 {
            self.prev = trade.price;
        } else {
            proof {
                assert(h0[h0.len() - 1].wf());
            }
            self.delta = trade.price - self.prev;
            self.prev = trade.price;
        }
        self.count = self.count + 1;
        self.hist = Ghost(h0.push(*trade));
        proof {
            if init {
                assert(self.hist@ =~= seq![*trade]);
            }
        }
    }
}

} // verus!
