//! The feature-module capability and its closed set of implementations.
//!
//! Every module follows one reset-then-accumulate protocol: `update(trade,
//! init)` first discards all prior state when `init` is true, then folds the
//! trade in exactly as a non-reset call would, so a reset trade is always the
//! first observation of the new interval. `value` is a pure read of the
//! current statistic. The contract is stated over the ghost history of
//! trades folded in since the last reset: each module's invariant pins its
//! accumulators to exact sums over that history, and `value` is pinned to a
//! per-kind formula of the history alone.

use vstd::prelude::*;

use crate::common::{Ratio, Trade, MAX_TRADES};

pub mod average_price;
pub mod avg_spread;
pub mod close;
pub mod directional_trade_entropy;
pub mod directional_trade_ratio;
pub mod directional_volume_entropy;
pub mod directional_volume_ratio;
pub mod high;
pub mod last_spread;
pub mod low;
pub mod num_trades;
pub mod open;
pub mod std_dev_prices;
pub mod std_dev_sizes;
pub mod time_velocity;
pub mod volume;
pub mod weighted_price;

pub use average_price::ModuleAveragePrice;
pub use avg_spread::ModuleAvgSpread;
pub use close::ModuleClose;
pub use directional_trade_entropy::ModuleDirectionalTradeEntropy;
pub use directional_trade_ratio::ModuleDirectionalTradeRatio;
pub use directional_volume_entropy::ModuleDirectionalVolumeEntropy;
pub use directional_volume_ratio::ModuleDirectionalVolumeRatio;
pub use high::ModuleHigh;
pub use last_spread::ModuleLastSpread;
pub use low::ModuleLow;
pub use num_trades::ModuleNumTrades;
pub use open::ModuleOpen;
pub use std_dev_prices::ModuleStdDevPrices;
pub use std_dev_sizes::ModuleStdDevSizes;
pub use time_velocity::ModuleTimeVelocity;
pub use volume::ModuleVolume;
pub use weighted_price::ModuleWeightedPrice;

verus! {

/// The capability every feature module offers: a stable name, a pure read
/// of the current statistic, and the single mutating fold.
pub trait FeatureModule: Sized {
    /// The trades folded in since the most recent reset.
    spec fn hist(&self) -> Seq<Trade>;

    /// Accumulator consistency: the concrete state is exactly what folding
    /// `hist()` produces, every trade is in bounds, and the history is no
    /// longer than one interval may be.
    spec fn inv(&self) -> bool;

    /// The statistic as an exact rational (numerator, denominator) of the
    /// history alone. A zero denominator means the statistic is undefined,
    /// the analogue of a non-finite floating-point read.
    spec fn value_spec(&self) -> (int, int);

    /// Stable identifier for the module kind.
    fn name(&self) -> (r: &str);

    /// Current statistic; a pure read that never mutates the accumulator.
    fn value(&self) -> (r: Ratio)
        requires
            self.inv(),
        ensures
            r.num as int == self.value_spec().0,
            r.den as int == self.value_spec().1,
            r.den >= 0,
    ;

    /// Fold `trade` into the accumulator. With `init` the prior state is
    /// discarded first, so the history becomes exactly the one reset trade;
    /// otherwise the trade is appended to the running history.
    fn update(&mut self, trade: &Trade, init: bool)
        requires
            old(self).inv(),
            trade.wf(),
            !init ==> old(self).hist().len() < MAX_TRADES,
        ensures
            final(self).inv(),
            final(self).hist() == (if init {
                seq![*trade]
            } else {
                old(self).hist().push(*trade)
            }),
    ;
}

/// Enumeration of all available features. The set is closed: a new feature
/// kind means a new tag here and a matching module implementation, never
/// runtime registration.
#[derive(Clone, Copy, PartialEq, Eq, Structural, Debug)]
pub enum FeatureModules {
    Open,
    High,
    Low,
    Close,
    Volume,
    AveragePrice,
    WeightedPrice,
    NumTrades,
    DirectionalTradeRatio,
    DirectionalVolumeRatio,
    StdDevPrices,
    StdDevSizes,
    LastSpread,
    AvgSpread,
    DirectionalTradeEntropy,
    DirectionalVolumeEntropy,
    TimeVelocity,
}

/// A live module of any kind: the closed tagged union the factory
/// constructs, dispatching every capability call to the wrapped accumulator.
pub enum Module {
    Open(ModuleOpen),
    High(ModuleHigh),
    Low(ModuleLow),
    Close(ModuleClose),
    Volume(ModuleVolume),
    AveragePrice(ModuleAveragePrice),
    WeightedPrice(ModuleWeightedPrice),
    NumTrades(ModuleNumTrades),
    DirectionalTradeRatio(ModuleDirectionalTradeRatio),
    DirectionalVolumeRatio(ModuleDirectionalVolumeRatio),
    StdDevPrices(ModuleStdDevPrices),
    StdDevSizes(ModuleStdDevSizes),
    LastSpread(ModuleLastSpread),
    AvgSpread(ModuleAvgSpread),
    DirectionalTradeEntropy(ModuleDirectionalTradeEntropy),
    DirectionalVolumeEntropy(ModuleDirectionalVolumeEntropy),
    TimeVelocity(ModuleTimeVelocity),
}

impl Module {
    /// The tag this live module was constructed from.
    pub open spec fn kind(&self) -> FeatureModules {
        match self {
            Module::Open(_) => FeatureModules::Open,
            Module::High(_) => FeatureModules::High,
            Module::Low(_) => FeatureModules::Low,
            Module::Close(_) => FeatureModules::Close,
            Module::Volume(_) => FeatureModules::Volume,
            Module::AveragePrice(_) => FeatureModules::AveragePrice,
            Module::WeightedPrice(_) => FeatureModules::WeightedPrice,
            Module::NumTrades(_) => FeatureModules::NumTrades,
            Module::DirectionalTradeRatio(_) => FeatureModules::DirectionalTradeRatio,
            Module::DirectionalVolumeRatio(_) => FeatureModules::DirectionalVolumeRatio,
            Module::StdDevPrices(_) => FeatureModules::StdDevPrices,
            Module::StdDevSizes(_) => FeatureModules::StdDevSizes,
            Module::LastSpread(_) => FeatureModules::LastSpread,
            Module::AvgSpread(_) => FeatureModules::AvgSpread,
            Module::DirectionalTradeEntropy(_) => FeatureModules::DirectionalTradeEntropy,
            Module::DirectionalVolumeEntropy(_) => FeatureModules::DirectionalVolumeEntropy,
            Module::TimeVelocity(_) => FeatureModules::TimeVelocity,
        }
    }
}

impl FeatureModule for Module {
    open spec fn hist(&self) -> Seq<Trade> {
        match self {
            Module::Open(m) => m.hist(),
            Module::High(m) => m.hist(),
            Module::Low(m) => m.hist(),
            Module::Close(m) => m.hist(),
            Module::Volume(m) => m.hist(),
            Module::AveragePrice(m) => m.hist(),
            Module::WeightedPrice(m) => m.hist(),
            Module::NumTrades(m) => m.hist(),
            Module::DirectionalTradeRatio(m) => m.hist(),
            Module::DirectionalVolumeRatio(m) => m.hist(),
            Module::StdDevPrices(m) => m.hist(),
            Module::StdDevSizes(m) => m.hist(),
            Module::LastSpread(m) => m.hist(),
            Module::AvgSpread(m) => m.hist(),
            Module::DirectionalTradeEntropy(m) => m.hist(),
            Module::DirectionalVolumeEntropy(m) => m.hist(),
            Module::TimeVelocity(m) => m.hist(),
        }
    }

    open spec fn inv(&self) -> bool {
        match self {
            Module::Open(m) => m.inv(),
            Module::High(m) => m.inv(),
            Module::Low(m) => m.inv(),
            Module::Close(m) => m.inv(),
            Module::Volume(m) => m.inv(),
            Module::AveragePrice(m) => m.inv(),
            Module::WeightedPrice(m) => m.inv(),
            Module::NumTrades(m) => m.inv(),
            Module::DirectionalTradeRatio(m) => m.inv(),
            Module::DirectionalVolumeRatio(m) => m.inv(),
            Module::StdDevPrices(m) => m.inv(),
            Module::StdDevSizes(m) => m.inv(),
            Module::LastSpread(m) => m.inv(),
            Module::AvgSpread(m) => m.inv(),
            Module::DirectionalTradeEntropy(m) => m.inv(),
            Module::DirectionalVolumeEntropy(m) => m.inv(),
            Module::TimeVelocity(m) => m.inv(),
        }
    }

    open spec fn value_spec(&self) -> (int, int) {
        match self {
            Module::Open(m) => m.value_spec(),
            Module::High(m) => m.value_spec(),
            Module::Low(m) => m.value_spec(),
            Module::Close(m) => m.value_spec(),
            Module::Volume(m) => m.value_spec(),
            Module::AveragePrice(m) => m.value_spec(),
            Module::WeightedPrice(m) => m.value_spec(),
            Module::NumTrades(m) => m.value_spec(),
            Module::DirectionalTradeRatio(m) => m.value_spec(),
            Module::DirectionalVolumeRatio(m) => m.value_spec(),
            Module::StdDevPrices(m) => m.value_spec(),
            Module::StdDevSizes(m) => m.value_spec(),
            Module::LastSpread(m) => m.value_spec(),
            Module::AvgSpread(m) => m.value_spec(),
            Module::DirectionalTradeEntropy(m) => m.value_spec(),
            Module::DirectionalVolumeEntropy(m) => m.value_spec(),
            Module::TimeVelocity(m) => m.value_spec(),
        }
    }

    fn name(&self) -> (r: &str)
        ensures
            r@ == self.kind().name_spec(),
    {
        match self {
            Module::Open(m) => m.name(),
            Module::High(m) => m.name(),
            Module::Low(m) => m.name(),
            Module::Close(m) => m.name(),
            Module::Volume(m) => m.name(),
            Module::AveragePrice(m) => m.name(),
            Module::WeightedPrice(m) => m.name(),
            Module::NumTrades(m) => m.name(),
            Module::DirectionalTradeRatio(m) => m.name(),
            Module::DirectionalVolumeRatio(m) => m.name(),
            Module::StdDevPrices(m) => m.name(),
            Module::StdDevSizes(m) => m.name(),
            Module::LastSpread(m) => m.name(),
            Module::AvgSpread(m) => m.name(),
            Module::DirectionalTradeEntropy(m) => m.name(),
            Module::DirectionalVolumeEntropy(m) => m.name(),
            Module::TimeVelocity(m) => m.name(),
        }
    }

    fn value(&self) -> (r: Ratio) {
        match self {
            Module::Open(m) => m.value(),
            Module::High(m) => m.value(),
            Module::Low(m) => m.value(),
            Module::Close(m) => m.value(),
            Module::Volume(m) => m.value(),
            Module::AveragePrice(m) => m.value(),
            Module::WeightedPrice(m) => m.value(),
            Module::NumTrades(m) => m.value(),
            Module::DirectionalTradeRatio(m) => m.value(),
            Module::DirectionalVolumeRatio(m) => m.value(),
            Module::StdDevPrices(m) => m.value(),
            Module::StdDevSizes(m) => m.value(),
            Module::LastSpread(m) => m.value(),
            Module::AvgSpread(m) => m.value(),
            Module::DirectionalTradeEntropy(m) => m.value(),
            Module::DirectionalVolumeEntropy(m) => m.value(),
            Module::TimeVelocity(m) => m.value(),
        }
    }

    fn update(&mut self, trade: &Trade, init: bool)
        ensures
            final(self).kind() == old(self).kind(),
    {
        match self {
            Module::Open(m) => m.update(trade, init),
            Module::High(m) => m.update(trade, init),
            Module::Low(m) => m.update(trade, init),
            Module::Close(m) => m.update(trade, init),
            Module::Volume(m) => m.update(trade, init),
            Module::AveragePrice(m) => m.update(trade, init),
            Module::WeightedPrice(m) => m.update(trade, init),
            Module::NumTrades(m) => m.update(trade, init),
            Module::DirectionalTradeRatio(m) => m.update(trade, init),
            Module::DirectionalVolumeRatio(m) => m.update(trade, init),
            Module::StdDevPrices(m) => m.update(trade, init),
            Module::StdDevSizes(m) => m.update(trade, init),
            Module::LastSpread(m) => m.update(trade, init),
            Module::AvgSpread(m) => m.update(trade, init),
            Module::DirectionalTradeEntropy(m) => m.update(trade, init),
            Module::DirectionalVolumeEntropy(m) => m.update(trade, init),
            Module::TimeVelocity(m) => m.update(trade, init),
        }
    }
}

impl FeatureModules {
    /// The stable name of each kind, as `name()` reports it.
    pub open spec fn name_spec(&self) -> Seq<char> {
        match self {
            FeatureModules::Open => "Open"@,
            FeatureModules::High => "High"@,
            FeatureModules::Low => "Low"@,
            FeatureModules::Close => "Close"@,
            FeatureModules::Volume => "Volume"@,
            FeatureModules::AveragePrice => "AveragePrice"@,
            FeatureModules::WeightedPrice => "WeightedPrice"@,
            FeatureModules::NumTrades => "NumTrades"@,
            FeatureModules::DirectionalTradeRatio => "DirectionalTradeRatio"@,
            FeatureModules::DirectionalVolumeRatio => "DirectionalVolumeRatio"@,
            FeatureModules::StdDevPrices => "StdDevPrices"@,
            FeatureModules::StdDevSizes => "StdDevSizes"@,
            FeatureModules::LastSpread => "LastSpread"@,
            FeatureModules::AvgSpread => "AvgSpread"@,
            FeatureModules::DirectionalTradeEntropy => "DirectionalTradeEntropy"@,
            FeatureModules::DirectionalVolumeEntropy => "DirectionalVolumeEntropy"@,
            FeatureModules::TimeVelocity => "TimeVelocity"@,
        }
    }

    /// Construct a freshly-initialized live module of the matching concrete
    /// type: empty state, empty history. The mapping is total — every tag
    /// has exactly one constructor — and performs no I/O.
    pub fn get_module(&self) -> (m: Module)
        ensures
            m.inv(),
            m.hist() == Seq::<Trade>::empty(),
            m.kind() == *self,
    {
        match self {
            FeatureModules::Open => Module::Open(ModuleOpen::default()),
            FeatureModules::High => Module::High(ModuleHigh::default()),
            FeatureModules::Low => Module::Low(ModuleLow::default()),
            FeatureModules::Close => Module::Close(ModuleClose::default()),
            FeatureModules::Volume => Module::Volume(ModuleVolume::default()),
            FeatureModules::AveragePrice => Module::AveragePrice(ModuleAveragePrice::default()),
            FeatureModules::WeightedPrice => Module::WeightedPrice(ModuleWeightedPrice::default()),
            FeatureModules::NumTrades => Module::NumTrades(ModuleNumTrades::default()),
            FeatureModules::DirectionalTradeRatio => Module::DirectionalTradeRatio(
                ModuleDirectionalTradeRatio::default(),
            ),
            FeatureModules::DirectionalVolumeRatio => Module::DirectionalVolumeRatio(
                ModuleDirectionalVolumeRatio::default(),
            ),
            FeatureModules::StdDevPrices => Module::StdDevPrices(ModuleStdDevPrices::new()),
            FeatureModules::StdDevSizes => Module::StdDevSizes(ModuleStdDevSizes::new()),
            FeatureModules::LastSpread => Module::LastSpread(ModuleLastSpread::default()),
            FeatureModules::AvgSpread => Module::AvgSpread(ModuleAvgSpread::default()),
            FeatureModules::DirectionalTradeEntropy => Module::DirectionalTradeEntropy(
                ModuleDirectionalTradeEntropy::default(),
            ),
            FeatureModules::DirectionalVolumeEntropy => Module::DirectionalVolumeEntropy(
                ModuleDirectionalVolumeEntropy::default(),
            ),
            FeatureModules::TimeVelocity => Module::TimeVelocity(ModuleTimeVelocity::default()),
        }
    }
}

/// One scalar feature of a snapshot; it carries no identity information,
/// only the value read from a module.
#[derive(Clone, Copy, Debug)]
pub struct CandleFeature {
    value: Ratio,
}

impl CandleFeature {
    /// The wrapped scalar.
    pub closed spec fn spec_value(&self) -> Ratio {
        self.value
    }

    pub fn value(&self) -> (r: Ratio)
        ensures
            r == self.spec_value(),
    {
        self.value
    }
}

/// An ordered feature vector: a pure snapshot of the current statistics of
/// a module list, in the list's order, with no back-reference to the
/// modules that produced it.
#[derive(Debug, Default)]
pub struct ModularCandle {
    pub features: Vec<CandleFeature>,
}

impl ModularCandle {
    /// Read `value()` of every module once, in order, mutating and
    /// resetting nothing; the output order matches the input order.
    pub fn from_modules(modules: &Vec<Module>) -> (c: Self)
        requires
            forall|i: int| 0 <= i < modules@.len() ==> (#[trigger] modules@[i]).inv(),
        ensures
            c.features@.len() == modules@.len(),
            forall|i: int|
                0 <= i < modules@.len() ==> (#[trigger] c.features@[i]).spec_value().num as int
                    == modules@[i].value_spec().0 && c.features@[i].spec_value().den as int
                    == modules@[i].value_spec().1,
    {
        let mut features: Vec<CandleFeature> = Vec::new();
        let mut i: usize = 0;
        while i < modules.len()
            invariant
                i <= modules@.len(),
                features@.len() == i,
                forall|k: int| 0 <= k < modules@.len() ==> (#[trigger] modules@[k]).inv(),
                forall|k: int|
                    0 <= k < i ==> (#[trigger] features@[k]).spec_value().num as int
                        == modules@[k].value_spec().0 && features@[k].spec_value().den as int
                        == modules@[k].value_spec().1,
            decreases modules@.len() - i,
        {
            let f = CandleFeature { value: modules[i].value() };
            features.push(f);
            i = i + 1;
        }
        Self { features }
    }
}

} // verus!
