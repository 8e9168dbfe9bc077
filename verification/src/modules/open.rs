use vstd::prelude::*;

use crate::common::{wf_hist, Ratio, Trade, MAX_TRADES};
use crate::modules::FeatureModule;

verus! {

/// First price observed since the last reset; set once per interval.
pub struct ModuleOpen {
    price: i64,
    set: bool,
    hist: Ghost<Seq<Trade>>,
}

/// The opening price of a history, undefined while it is empty.
pub open spec fn open_value(h: Seq<Trade>) -> (int, int) {
    if h.len() == 0 {
        (0int, 0int)
    } else {
        (h[0].price as int, 1int)
    }
}

impl Default for ModuleOpen {
    /// A fresh accumulator with an empty history.
    fn default() -> (r: Self)
        ensures
            r.inv(),
            r.hist() == Seq::<Trade>::empty(),
    {
        ModuleOpen { price: 0, set: false, hist: Ghost(Seq::empty()) }
    }
}

impl FeatureModule for ModuleOpen {
    closed spec fn hist(&self) -> Seq<Trade> {
        self.hist@
    }

    closed spec fn inv(&self) -> bool {
        &&& wf_hist(self.hist@)
        &&& self.hist@.len() <= MAX_TRADES
        &&& (self.set <==> self.hist@.len() > 0)
        &&& (self.hist@.len() > 0 ==> self.price == self.hist@[0].price)
    }

    open spec fn value_spec(&self) -> (int, int) {
        open_value(self.hist())
    }

    fn name(&self) -> (r: &str)
        ensures
            r@ == "Open"@,
    {
        "Open"
    }

    fn value(&self) -> (r: Ratio) {
        if self.set {
            Ratio { num: self.price as i128, den: 1 }
        } else {
            Ratio { num: 0, den: 0 }
        }
    }

    fn update(&mut self, trade: &Trade, init: bool) {
        if init {
            self.set = false;
            self.hist = Ghost(Seq::empty());
        }
        if !self.set {
            self.price = trade.price;
            self.set = true;
        }
        self.hist = Ghost(self.hist@.push(*trade));
        proof {
            if init {
                assert(self.hist@ =~= seq![*trade]);
            }
        }
    }
}

} // verus!
