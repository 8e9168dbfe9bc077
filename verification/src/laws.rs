//! Framework-level laws of the module set.
//!
//! These proof functions state, once and for all kinds, what the individual
//! contracts compose to: a module's statistic is a function of its reset
//! history alone, a reset with a trade is the same as folding that trade
//! into a fresh module, the order-insensitive statistics depend only on the
//! multiset of trades of an interval, and the directional shares never
//! leave [0, 1].

use vstd::prelude::*;
use vstd::seq_lib::group_to_multiset_ensures;

use crate::common::{Ratio, Trade};
use crate::modules::average_price::average_price_value;
use crate::modules::directional_trade_entropy::trade_entropy_share;
use crate::modules::directional_trade_ratio::trade_ratio_value;
use crate::modules::directional_volume_entropy::volume_entropy_share;
use crate::modules::directional_volume_ratio::volume_ratio_value;
use crate::modules::num_trades::num_trades_value;
use crate::modules::std_dev_prices::price_variance_value;
use crate::modules::std_dev_sizes::size_variance_value;
use crate::modules::volume::volume_value;
use crate::modules::weighted_price::weighted_price_value;
use crate::modules::FeatureModule;
use crate::modules::Module;
use crate::stats::{
    abs_size_of, buy_one_of, buy_size_of, lemma_sum_by_nonneg, lemma_sum_by_permutation,
    lemma_sum_by_pointwise_le, lemma_sum_one_is_len, one_of, price_of, size_of, sq_price_of,
    sq_size_of, weighted_price_of,
};

verus! {

/// A module's statistic is determined by its kind and by the trades folded
/// in since the last reset, and by nothing else.
pub proof fn lemma_value_determined_by_history(a: Module, b: Module)
    requires
        a.kind() == b.kind(),
        a.hist() == b.hist(),
    ensures
        a.value_spec() == b.value_spec(),
{
}

/// Reset-then-add equivalence: a module that was reset with trade `t`
/// (history [t]) reports the same statistic as a fresh module of the same
/// kind that folded `t` in once (history empty-then-push(t)). The reset
/// trade is counted exactly once, as the first observation of the interval.
pub proof fn lemma_reset_then_add(a: Module, b: Module, t: Trade)
    requires
        a.kind() == b.kind(),
        a.hist() == seq![t],
        b.hist() == Seq::<Trade>::empty().push(t),
    ensures
        a.value_spec() == b.value_spec(),
{
    assert(Seq::<Trade>::empty().push(t) =~= seq![t]);
    lemma_value_determined_by_history(a, b);
}

/// `value` is a pure, idempotent read: it borrows the module immutably and
/// its contract pins the reported rational to the module's state, so any
/// two reads without an intervening `update` report the one same result.
pub proof fn lemma_value_idempotent(m: Module, r1: Ratio, r2: Ratio)
    requires
        r1.num as int == m.value_spec().0,
        r1.den as int == m.value_spec().1,
        r2.num as int == m.value_spec().0,
        r2.den as int == m.value_spec().1,
    ensures
        r1 == r2,
{
}

/// The order-insensitive statistics depend only on the multiset of trades
/// fed between two resets: any permutation of an interval yields the same
/// mean, weighted mean, net volume, count, directional shares, and
/// variances.
pub proof fn lemma_order_insensitive(s1: Seq<Trade>, s2: Seq<Trade>)
    requires
        s1.to_multiset() == s2.to_multiset(),
    ensures
        average_price_value(s1) == average_price_value(s2),
        weighted_price_value(s1) == weighted_price_value(s2),
        volume_value(s1) == volume_value(s2),
        num_trades_value(s1) == num_trades_value(s2),
        trade_ratio_value(s1) == trade_ratio_value(s2),
        volume_ratio_value(s1) == volume_ratio_value(s2),
        price_variance_value(s1) == price_variance_value(s2),
        size_variance_value(s1) == size_variance_value(s2),
        trade_entropy_share(s1) == trade_entropy_share(s2),
        volume_entropy_share(s1) == volume_entropy_share(s2),
{
    broadcast use group_to_multiset_ensures;

    assert(s1.len() == s1.to_multiset().len());
    assert(s2.len() == s2.to_multiset().len());
    lemma_sum_by_permutation(s1, s2, price_of());
    lemma_sum_by_permutation(s1, s2, size_of());
    lemma_sum_by_permutation(s1, s2, abs_size_of());
    lemma_sum_by_permutation(s1, s2, weighted_price_of());
    lemma_sum_by_permutation(s1, s2, buy_one_of());
    lemma_sum_by_permutation(s1, s2, buy_size_of());
    lemma_sum_by_permutation(s1, s2, sq_price_of());
    lemma_sum_by_permutation(s1, s2, sq_size_of());
}

/// The directional statistics are shares: the numerator lies between zero
/// and the denominator, so wherever the denominator is positive the ratio
/// is in [0, 1]. The trade-count denominators are positive for every
/// non-empty history; the volume denominators are positive exactly when
/// some observed size is non-zero.
pub proof fn lemma_directional_share_bounds(h: Seq<Trade>)
    ensures
        0 <= trade_ratio_value(h).0 <= trade_ratio_value(h).1,
        0 <= volume_ratio_value(h).0 <= volume_ratio_value(h).1,
        0 <= trade_entropy_share(h).0 <= trade_entropy_share(h).1,
        0 <= volume_entropy_share(h).0 <= volume_entropy_share(h).1,
        h.len() > 0 ==> trade_ratio_value(h).1 > 0 && trade_entropy_share(h).1 > 0,
{
    assert forall|i: int| 0 <= i < h.len() implies 0 <= #[trigger] buy_one_of()(h[i]) <= one_of()(
        h[i],
    ) by {
        assert(one_of()(h[i]) == 1);
    }
    lemma_sum_by_nonneg(h, buy_one_of());
    lemma_sum_by_pointwise_le(h, buy_one_of(), one_of());
    lemma_sum_one_is_len(h);

    assert forall|i: int| 0 <= i < h.len() implies 0 <= #[trigger] buy_size_of()(h[i])
        <= abs_size_of()(h[i]) by {
        assert(abs_size_of()(h[i]) == vstd::math::abs(h[i].size as int));
    }
    lemma_sum_by_nonneg(h, buy_size_of());
    lemma_sum_by_pointwise_le(h, buy_size_of(), abs_size_of());
}

} // verus!
