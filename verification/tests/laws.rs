use trade_features::common::{Ratio, Trade};
use trade_features::modules::{FeatureModule, FeatureModules, Module};

fn law_trades() -> Vec<Trade> {
    vec![
        Trade { timestamp: 0, price: 100, size: 10 },
        Trade { timestamp: 1, price: 101, size: -10 },
        Trade { timestamp: 2, price: 100, size: 20 },
        Trade { timestamp: 3, price: 102, size: 10 },
        Trade { timestamp: 4, price: 103, size: 10 },
        Trade { timestamp: 5, price: 104, size: -20 },
        Trade { timestamp: 6, price: 102, size: -10 },
        Trade { timestamp: 7, price: 101, size: 10 },
        Trade { timestamp: 8, price: 102, size: 30 },
        Trade { timestamp: 9, price: 105, size: 10 },
    ]
}

fn law_kinds() -> Vec<FeatureModules> {
    vec![
        FeatureModules::Open,
        FeatureModules::High,
        FeatureModules::Low,
        FeatureModules::Close,
        FeatureModules::Volume,
        FeatureModules::AveragePrice,
        FeatureModules::WeightedPrice,
        FeatureModules::NumTrades,
        FeatureModules::DirectionalTradeRatio,
        FeatureModules::DirectionalVolumeRatio,
        FeatureModules::StdDevPrices,
        FeatureModules::StdDevSizes,
        FeatureModules::LastSpread,
        FeatureModules::AvgSpread,
        FeatureModules::DirectionalTradeEntropy,
        FeatureModules::DirectionalVolumeEntropy,
        FeatureModules::TimeVelocity,
    ]
}

fn law_feed(m: &mut Module, trades: &[Trade]) {
    let mut init = true;
    for t in trades {
        m.update(t, init);
        init = false;
    }
}

/// The Shannon entropy (natural log) of a two-outcome distribution given
/// the exact share reported by an entropy module.
fn entropy_of_share(share: Ratio) -> f64 {
    let p = share.num as f64 / share.den as f64;
    let q = 1.0 - p;
    let mut h = 0.0;
    if p > 0.0 {
        h -= p * p.ln();
    }
    if q > 0.0 {
        h -= q * q.ln();
    }
    h
}

#[test]
fn reset_then_add_matches_fresh_module() {
    let trades = law_trades();
    let extra = Trade { timestamp: 20, price: 111, size: -7 };
    for k in &law_kinds() {
        let mut stale = k.get_module();
        law_feed(&mut stale, &trades);
        stale.update(&extra, true);
        let mut fresh = k.get_module();
        fresh.update(&extra, false);
        assert_eq!(stale.value(), fresh.value());
    }
}

#[test]
fn value_is_idempotent() {
    let trades = law_trades();
    for k in &law_kinds() {
        let mut m = k.get_module();
        law_feed(&mut m, &trades);
        let first = m.value();
        let second = m.value();
        let third = m.value();
        assert_eq!(first, second);
        assert_eq!(first, third);
    }
}

#[test]
fn order_insensitive_modules_ignore_permutation() {
    let trades = law_trades();
    let mut reversed = law_trades();
    reversed.reverse();
    let insensitive = vec![
        FeatureModules::Volume,
        FeatureModules::AveragePrice,
        FeatureModules::WeightedPrice,
        FeatureModules::NumTrades,
        FeatureModules::DirectionalTradeRatio,
        FeatureModules::DirectionalVolumeRatio,
        FeatureModules::StdDevPrices,
        FeatureModules::StdDevSizes,
        FeatureModules::DirectionalTradeEntropy,
        FeatureModules::DirectionalVolumeEntropy,
    ];
    for k in &insensitive {
        let mut a = k.get_module();
        let mut b = k.get_module();
        law_feed(&mut a, &trades);
        law_feed(&mut b, &reversed);
        assert_eq!(a.value(), b.value());
    }
}

#[test]
fn order_sensitive_modules_observe_reordering() {
    let trades = law_trades();
    let mut reversed = law_trades();
    reversed.reverse();
    // Reversing moves the first and last trades, which these statistics read.
    for k in &[
        FeatureModules::Open,
        FeatureModules::Close,
        FeatureModules::LastSpread,
        FeatureModules::TimeVelocity,
    ] {
        let mut a = k.get_module();
        let mut b = k.get_module();
        law_feed(&mut a, &trades);
        law_feed(&mut b, &reversed);
        assert_ne!(a.value(), b.value());
    }
    // Reversal keeps every adjacency, so for the mean absolute spread swap
    // the two end trades instead, which changes the set of adjacent pairs.
    let mut swapped = law_trades();
    swapped.swap(0, 9);
    let mut a = FeatureModules::AvgSpread.get_module();
    let mut b = FeatureModules::AvgSpread.get_module();
    law_feed(&mut a, &trades);
    law_feed(&mut b, &swapped);
    assert_eq!(a.value(), Ratio { num: 13, den: 9 });
    assert_eq!(b.value(), Ratio { num: 15, den: 9 });
    assert_ne!(a.value(), b.value());
}

#[test]
fn directional_ratios_stay_in_unit_interval() {
    let trades = law_trades();
    for k in &[
        FeatureModules::DirectionalTradeRatio,
        FeatureModules::DirectionalVolumeRatio,
        FeatureModules::DirectionalTradeEntropy,
        FeatureModules::DirectionalVolumeEntropy,
    ] {
        let mut m = k.get_module();
        law_feed(&mut m, &trades);
        let v = m.value();
        assert!(v.den > 0);
        assert!(0 <= v.num && v.num <= v.den);
    }
}

#[test]
fn entropy_never_exceeds_ln_two() {
    let trades = law_trades();
    let ln2 = (2.0f64).ln();
    let mut m = FeatureModules::DirectionalTradeEntropy.get_module();
    law_feed(&mut m, &trades);
    let h = entropy_of_share(m.value());
    assert!(h >= 0.0);
    assert!(h <= ln2 + 1e-12);
    // An uneven split stays strictly below the maximum.
    assert!(h < ln2 - 1e-3);
}

#[test]
fn entropy_reaches_maximum_only_at_even_split() {
    let ln2 = (2.0f64).ln();
    // Exact 50/50 split: entropy is ln 2.
    let mut even = FeatureModules::DirectionalTradeEntropy.get_module();
    even.update(&Trade { timestamp: 0, price: 100, size: 5 }, true);
    even.update(&Trade { timestamp: 1, price: 101, size: -5 }, false);
    assert_eq!(even.value(), Ratio { num: 1, den: 2 });
    let h_even = entropy_of_share(even.value());
    assert!((h_even - ln2).abs() < 1e-12);
    // One-sided flow: entropy is zero.
    let mut onesided = FeatureModules::DirectionalVolumeEntropy.get_module();
    onesided.update(&Trade { timestamp: 0, price: 100, size: 5 }, true);
    onesided.update(&Trade { timestamp: 1, price: 101, size: 7 }, false);
    let h_one = entropy_of_share(onesided.value());
    assert!(h_one.abs() < 1e-12);
}
