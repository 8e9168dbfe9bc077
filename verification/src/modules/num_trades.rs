use vstd::prelude::*;

use crate::common::{wf_hist, Ratio, Trade, MAX_TRADES};
use crate::modules::FeatureModule;

verus! {

/// Count of trades observed since the last reset.
pub struct ModuleNumTrades {
    count: u64,
    hist: Ghost<Seq<Trade>>,
}

/// The number of trades of a history; zero for an empty one.
pub open spec fn num_trades_value(h: Seq<Trade>) -> (int, int) {
    (h.len() as int, 1int)
}

impl Default for ModuleNumTrades {
    /// A fresh accumulator with an empty history.
    fn default() -> (r: Self)
        ensures
            r.inv(),
            r.hist() == Seq::<Trade>::empty(),
    {
        ModuleNumTrades { count: 0, hist: Ghost(Seq::empty()) }
    }
}

impl FeatureModule for ModuleNumTrades {
    closed spec fn hist(&self) -> Seq<Trade> {
        self.hist@
    }

    closed spec fn inv(&self) -> bool {
        &&& wf_hist(self.hist@)
        &&& self.hist@.len() <= MAX_TRADES
        &&& self.count == self.hist@.len()
    }

    open spec fn value_spec(&self) -> (int, int) {
        num_trades_value(self.hist())
    }

    fn name(&self) -> (r: &str)
        ensures
            r@ == "NumTrades"@,
    {
        "NumTrades"
    }

    fn value(&self) -> (r: Ratio) {
        Ratio { num: self.count as i128, den: 1 }
    }

    fn update(&mut self, trade: &Trade, init: bool) {
        if init {
            self.count = 0;
            self.hist = Ghost(Seq::empty());
        }
        self.count = self.count + 1;
        self.hist = Ghost(self.hist@.push(*trade));
        proof {
            if init {
                assert(self.hist@ =~= seq![*trade]);
            }
        }
    }
}

} // verus!
