use trade_features::common::{Ratio, Trade};
use trade_features::modules::average_price::ModuleAveragePrice;
use trade_features::modules::num_trades::ModuleNumTrades;
use trade_features::modules::std_dev_prices::ModuleStdDevPrices;
use trade_features::modules::time_velocity::ModuleTimeVelocity;
use trade_features::modules::weighted_price::ModuleWeightedPrice;
use trade_features::modules::{FeatureModule, FeatureModules, ModularCandle, Module};

fn fixture_trades() -> Vec<Trade> {
    vec![
        Trade { timestamp: 0, price: 100, size: 10 },
        Trade { timestamp: 1, price: 101, size: -10 },
        Trade { timestamp: 2, price: 100, size: 20 },
        Trade { timestamp: 3, price: 102, size: 10 },
        Trade { timestamp: 4, price: 103, size: 10 },
        Trade { timestamp: 5, price: 104, size: -20 },
        Trade { timestamp: 6, price: 102, size: -10 },
        Trade { timestamp: 7, price: 101, size: 10 },
        Trade { timestamp: 8, price: 102, size: 30 },
        Trade { timestamp: 9, price: 105, size: 10 },
    ]
}

fn all_kinds() -> Vec<FeatureModules> {
    vec![
        FeatureModules::Open,
        FeatureModules::High,
        FeatureModules::Low,
        FeatureModules::Close,
        FeatureModules::Volume,
        FeatureModules::AveragePrice,
        FeatureModules::WeightedPrice,
        FeatureModules::NumTrades,
        FeatureModules::DirectionalTradeRatio,
        FeatureModules::DirectionalVolumeRatio,
        FeatureModules::StdDevPrices,
        FeatureModules::StdDevSizes,
        FeatureModules::LastSpread,
        FeatureModules::AvgSpread,
        FeatureModules::DirectionalTradeEntropy,
        FeatureModules::DirectionalVolumeEntropy,
        FeatureModules::TimeVelocity,
    ]
}

/// Feed every trade, with `init = true` exactly on the first one.
fn feed(m: &mut Module, trades: &[Trade]) {
    let mut init = true;
    for t in trades {
        m.update(t, init);
        init = false;
    }
}

#[test]
fn module_average_price() {
    let mut m = ModuleAveragePrice::default();
    for t in &fixture_trades() {
        m.update(t, false);
    }
    let v = m.value();
    assert_eq!(v.num, 1020);
    assert_eq!(v.den, 10);
    assert_eq!(v.num, 102 * v.den);
}

#[test]
fn scenario_fixture_all_modules() {
    let trades = fixture_trades();
    let mut modules: Vec<Module> = Vec::new();
    for k in &all_kinds() {
        modules.push(k.get_module());
    }
    for m in modules.iter_mut() {
        feed(m, &trades);
    }
    let candle = ModularCandle::from_modules(&modules);
    let vals: Vec<Ratio> = candle.features.iter().map(|f| f.value()).collect();
    assert_eq!(vals.len(), 17);
    assert_eq!(vals[0], Ratio { num: 100, den: 1 }); // Open
    assert_eq!(vals[1], Ratio { num: 105, den: 1 }); // High
    assert_eq!(vals[2], Ratio { num: 100, den: 1 }); // Low
    assert_eq!(vals[3], Ratio { num: 105, den: 1 }); // Close
    assert_eq!(vals[4], Ratio { num: 60, den: 1 }); // Volume, net signed sum of sizes
    assert_eq!(vals[5], Ratio { num: 1020, den: 10 }); // AveragePrice = 102
    assert_eq!(vals[6], Ratio { num: 14280, den: 140 }); // WeightedPrice = 102
    assert_eq!(vals[7], Ratio { num: 10, den: 1 }); // NumTrades
    assert_eq!(vals[8], Ratio { num: 7, den: 10 }); // DirectionalTradeRatio
    assert_eq!(vals[9], Ratio { num: 100, den: 140 }); // DirectionalVolumeRatio
    assert_eq!(vals[10], Ratio { num: 240, den: 100 }); // StdDevPrices: variance 2.4
    assert_eq!(vals[11], Ratio { num: 20400, den: 100 }); // StdDevSizes: variance 204
    assert_eq!(vals[12], Ratio { num: 3, den: 1 }); // LastSpread = 105 - 102
    assert_eq!(vals[13], Ratio { num: 13, den: 9 }); // AvgSpread
    assert_eq!(vals[14], Ratio { num: 7, den: 10 }); // DirectionalTradeEntropy share
    assert_eq!(vals[15], Ratio { num: 100, den: 140 }); // DirectionalVolumeEntropy share
    assert_eq!(vals[16], Ratio { num: 10, den: 9 }); // TimeVelocity
}

#[test]
fn reset_mid_stream_discards_prefix() {
    let trades = fixture_trades();
    let mut m = FeatureModules::AveragePrice.get_module();
    for (i, t) in trades.iter().enumerate() {
        m.update(t, i == 0 || i == 5);
    }
    // Only trades 5..=9 remain: (104 + 102 + 101 + 102 + 105) / 5.
    assert_eq!(m.value(), Ratio { num: 514, den: 5 });
}

#[test]
fn value_before_any_update() {
    // Statistics that need at least one trade are undefined (den == 0);
    // the running count and net volume start defined at zero.
    let expect_defined = |k: &FeatureModules| {
        matches!(k, FeatureModules::Volume | FeatureModules::NumTrades)
    };
    for k in &all_kinds() {
        let m = k.get_module();
        let v = m.value();
        if expect_defined(k) {
            assert_eq!(v, Ratio { num: 0, den: 1 });
        } else {
            assert_eq!(v.den, 0);
        }
    }
}

#[test]
fn module_names_match_kinds() {
    let expected = vec![
        "Open",
        "High",
        "Low",
        "Close",
        "Volume",
        "AveragePrice",
        "WeightedPrice",
        "NumTrades",
        "DirectionalTradeRatio",
        "DirectionalVolumeRatio",
        "StdDevPrices",
        "StdDevSizes",
        "LastSpread",
        "AvgSpread",
        "DirectionalTradeEntropy",
        "DirectionalVolumeEntropy",
        "TimeVelocity",
    ];
    for (k, name) in all_kinds().iter().zip(expected.iter()) {
        let m = k.get_module();
        assert_eq!(m.name(), *name);
    }
}

#[test]
fn candle_is_a_pure_ordered_snapshot() {
    let trades = fixture_trades();
    let mut modules: Vec<Module> = vec![
        FeatureModules::Close.get_module(),
        FeatureModules::Open.get_module(),
        FeatureModules::NumTrades.get_module(),
    ];
    for m in modules.iter_mut() {
        feed(m, &trades);
    }
    let candle = ModularCandle::from_modules(&modules);
    // Order matches the module list, not the declaration order of the kinds.
    assert_eq!(candle.features.len(), 3);
    assert_eq!(candle.features[0].value(), Ratio { num: 105, den: 1 });
    assert_eq!(candle.features[1].value(), Ratio { num: 100, den: 1 });
    assert_eq!(candle.features[2].value(), Ratio { num: 10, den: 1 });
    // Assembling a candle neither resets nor consumes the modules.
    let again = ModularCandle::from_modules(&modules);
    assert_eq!(again.features[0].value(), Ratio { num: 105, den: 1 });
    assert_eq!(modules[2].value(), Ratio { num: 10, den: 1 });
}

#[test]
fn weighted_price_undefined_on_zero_volume() {
    let mut m = ModuleWeightedPrice::default();
    m.update(&Trade { timestamp: 0, price: 100, size: 0 }, true);
    m.update(&Trade { timestamp: 1, price: 101, size: 0 }, false);
    let v = m.value();
    assert_eq!(v.den, 0);
}

#[test]
fn time_velocity_zero_span_is_undefined() {
    let mut m = ModuleTimeVelocity::default();
    m.update(&Trade { timestamp: 5, price: 100, size: 1 }, true);
    assert_eq!(m.value().den, 0);
    m.update(&Trade { timestamp: 5, price: 101, size: 1 }, false);
    assert_eq!(m.value().den, 0);
    m.update(&Trade { timestamp: 7, price: 102, size: 1 }, false);
    assert_eq!(m.value(), Ratio { num: 3, den: 2 });
}

#[test]
fn std_dev_single_trade_is_zero() {
    let mut m = ModuleStdDevPrices::new();
    m.update(&Trade { timestamp: 0, price: 123, size: 4 }, true);
    let v = m.value();
    assert_eq!(v.num, 0);
    assert_eq!(v.den, 1);
}

#[test]
fn num_trades_counts_updates_since_reset() {
    let trades = fixture_trades();
    let mut m = ModuleNumTrades::default();
    let mut since_reset = 0i128;
    for (i, t) in trades.iter().enumerate() {
        let init = i % 4 == 0;
        if init {
            since_reset = 1;
        } else {
            since_reset += 1;
        }
        m.update(t, init);
        assert_eq!(m.value(), Ratio { num: since_reset, den: 1 });
    }
}
