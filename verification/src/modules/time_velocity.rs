use vstd::prelude::*;

use crate::common::{wf_hist, Ratio, Trade, MAX_TRADES};
use crate::modules::FeatureModule;

verus! {

/// Trades per unit of time: count / (last timestamp - first timestamp).
///
/// When the interval spans no time — no trade yet, a single trade, or a
/// last timestamp not after the first — the statistic is undefined (zero
/// denominator) rather than a division by zero; that is this crate's
/// convention for the zero-span edge case. The statistic is meaningful only
/// if trades arrive in timestamp order, which is a caller obligation.
pub struct ModuleTimeVelocity {
    first_ts: u64,
    last_ts: u64,
    count: u64,
    hist: Ghost<Seq<Trade>>,
}

/// Numerator and denominator of the trade velocity of a history, undefined
/// when the timestamp span is not positive.
pub open spec fn time_velocity_value(h: Seq<Trade>) -> (int, int) {
    if h.len() == 0 || h.last().timestamp <= h[0].timestamp {
        (0int, 0int)
    } else {
        (h.len() as int, h.last().timestamp - h[0].timestamp)
    }
}

impl Default for ModuleTimeVelocity {
    /// A fresh accumulator with an empty history.
    fn default() -> (r: Self)
        ensures
            r.inv(),
            r.hist() == Seq::<Trade>::empty(),
    {
        ModuleTimeVelocity { first_ts: 0, last_ts: 0, count: 0, hist: Ghost(Seq::empty()) }
    }
}

impl FeatureModule for ModuleTimeVelocity {
    closed spec fn hist(&self) -> Seq<Trade> {
        self.hist@
    }

    closed spec fn inv(&self) -> bool {
        &&& wf_hist(self.hist@)
        &&& self.hist@.len() <= MAX_TRADES
        &&& self.count == self.hist@.len()
        &&& (self.hist@.len() >= 1 ==> self.first_ts == self.hist@[0].timestamp && self.last_ts
            == self.hist@.last().timestamp)
    }

    open spec fn value_spec(&self) -> (int, int) {
        time_velocity_value(self.hist())
    }

    fn name(&self) -> (r: &str)
        ensures
            r@ == "TimeVelocity"@,
    {
        "TimeVelocity"
    }

    fn value(&self) -> (r: Ratio) {
        if self.count > 0 && self.last_ts > self.first_ts {
            Ratio { num: self.count as i128, den: (self.last_ts - self.first_ts) as i128 }
        } else {
            Ratio { num: 0, den: 0 }
        }
    }

    fn update(&mut self, trade: &Trade, init: bool) {
        if init {
            self.count = 0;
            self.hist = Ghost(Seq::empty());
        }
        if self.count == 0 {
            self.first_ts = trade.timestamp;
        }
        self.last_ts = trade.timestamp;
        self.count = self.count + 1;
        self.hist = Ghost(self.hist@.push(*trade));
        proof {
            if init {
                assert(self.hist@ =~= seq![*trade]);
            }
        }
    }
}

} // verus!
