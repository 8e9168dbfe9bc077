use vstd::prelude::*;

use crate::common::{wf_hist, Ratio, Trade, MAX_TRADES};
use crate::modules::FeatureModule;

verus! {

/// Running maximum of the observed prices.
pub struct ModuleHigh {
    price: i64,
    set: bool,
    hist: Ghost<Seq<Trade>>,
}

/// Largest price of a non-empty history.
pub open spec fn max_price(h: Seq<Trade>) -> int
    decreases h.len(),
{
    if h.len() <= 1 {
        h[0].price as int
    } else if h.last().price as int > max_price(h.drop_last()) {
        h.last().price as int
    } else {
        max_price(h.drop_last())
    }
}

/// The running maximum of a history, undefined while it is empty.
pub open spec fn high_value(h: Seq<Trade>) -> (int, int) {
    if h.len() == 0 {
        (0int, 0int)
    } else {
        (max_price(h), 1int)
    }
}

impl Default for ModuleHigh {
    /// A fresh accumulator with an empty history.
    fn default() -> (r: Self)
        ensures
            r.inv(),
            r.hist() == Seq::<Trade>::empty(),
    {
        ModuleHigh { price: 0, set: false, hist: Ghost(Seq::empty()) }
    }
}

impl FeatureModule for ModuleHigh {
    closed spec fn hist(&self) -> Seq<Trade> {
        self.hist@
    }

    closed spec fn inv(&self) -> bool {
        &&& wf_hist(self.hist@)
        &&& self.hist@.len() <= MAX_TRADES
        &&& (self.set <==> self.hist@.len() > 0)
        &&& (self.hist@.len() > 0 ==> self.price == max_price(self.hist@))
    }

    open spec fn value_spec(&self) -> (int, int) {
        high_value(self.hist())
    }

    fn name(&self) -> (r: &str)
        ensures
            r@ == "High"@,
    {
        "High"
    }

    fn value(&self) -> (r: Ratio) {
        if self.set {
            Ratio { num: self.price as i128, den: 1 }
        } else {
            Ratio { num: 0, den: 0 }
        }
    }

    fn update(&mut self, trade: &Trade, init: bool) {
        if init {
            self.set = false;
            self.hist = Ghost(Seq::empty());
        }
        let ghost h0 = self.hist@;
        if !self.set {
            self.price = trade.price;
            self.set = true;
        } else if trade.price > self.price {
            self.price = trade.price;
        }
        self.hist = Ghost(h0.push(*trade));
        proof {
            assert(h0.push(*trade).drop_last() =~= h0);
            if init {
                assert(self.hist@ =~= seq![*trade]);
            }
        }
    }
}

} // verus!
