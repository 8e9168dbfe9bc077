//! Sums over trade histories and their algebra.
//!
//! Every order-insensitive module accumulates one pointwise sum over the
//! trades seen since its last reset. `sum_by` is that sum at the
//! specification level; the lemmas here give the facts every module proof
//! needs: how a sum grows under `push`, that it only depends on the multiset
//! of trades, and how it is bounded by pointwise bounds on the summand.

use vstd::math::abs;
use vstd::prelude::*;
use vstd::seq_lib::group_to_multiset_ensures;

use crate::common::{wf_hist, Trade, MAX_TRADES, PRICE_BOUND, SIZE_BOUND};

verus! {

/// Sum of `f` over the trades of `s`.
pub open spec fn sum_by(s: Seq<Trade>, f: spec_fn(Trade) -> int) -> int
    decreases s.len(),
{
    if s.len() == 0 {
        0
    } else {
        sum_by(s.drop_last(), f) + f(s.last())
    }
}

/// The trade's price.
pub open spec fn price_of() -> spec_fn(Trade) -> int {
    |t: Trade| t.price as int
}

/// The constant one: summing it counts trades.
pub open spec fn one_of() -> spec_fn(Trade) -> int {
    |t: Trade| 1int
}

/// The trade's signed size.
pub open spec fn size_of() -> spec_fn(Trade) -> int {
    |t: Trade| t.size as int
}

/// The trade's absolute size (traded quantity).
pub open spec fn abs_size_of() -> spec_fn(Trade) -> int {
    |t: Trade| abs(t.size as int) as int
}

/// Price weighted by traded quantity.
pub open spec fn weighted_price_of() -> spec_fn(Trade) -> int {
    |t: Trade| (t.price as int) * (abs(t.size as int) as int)
}

/// One for a buyer-initiated trade, zero otherwise.
pub open spec fn buy_one_of() -> spec_fn(Trade) -> int {
    |t: Trade| if t.size > 0 { 1int } else { 0int }
}

/// The traded quantity of a buyer-initiated trade, zero otherwise.
pub open spec fn buy_size_of() -> spec_fn(Trade) -> int {
    |t: Trade| if t.size > 0 { t.size as int } else { 0int }
}

/// The squared price.
pub open spec fn sq_price_of() -> spec_fn(Trade) -> int {
    |t: Trade| (t.price as int) * (t.price as int)
}

/// The squared signed size.
pub open spec fn sq_size_of() -> spec_fn(Trade) -> int {
    |t: Trade| (t.size as int) * (t.size as int)
}

pub open spec fn sum_price(h: Seq<Trade>) -> int {
    sum_by(h, price_of())
}

pub open spec fn sum_size(h: Seq<Trade>) -> int {
    sum_by(h, size_of())
}

pub open spec fn sum_abs_size(h: Seq<Trade>) -> int {
    sum_by(h, abs_size_of())
}

pub open spec fn sum_weighted_price(h: Seq<Trade>) -> int {
    sum_by(h, weighted_price_of())
}

pub open spec fn buy_count(h: Seq<Trade>) -> int {
    sum_by(h, buy_one_of())
}

pub open spec fn buy_volume(h: Seq<Trade>) -> int {
    sum_by(h, buy_size_of())
}

pub open spec fn sum_sq_price(h: Seq<Trade>) -> int {
    sum_by(h, sq_price_of())
}

pub open spec fn sum_sq_size(h: Seq<Trade>) -> int {
    sum_by(h, sq_size_of())
}

/// Folding one more trade adds its summand.
pub proof fn lemma_sum_by_push(s: Seq<Trade>, f: spec_fn(Trade) -> int, t: Trade)
    ensures
        sum_by(s.push(t), f) == sum_by(s, f) + f(t),
{
    assert(s.push(t).drop_last() =~= s);
}

/// Removing one trade subtracts its summand.
pub proof fn lemma_sum_by_remove(s: Seq<Trade>, i: int, f: spec_fn(Trade) -> int)
    requires
        0 <= i < s.len(),
    ensures
        sum_by(s.remove(i), f) == sum_by(s, f) - f(s[i]),
    decreases s.len(),
{
    if i == s.len() - 1 {
        assert(s.remove(i) =~= s.drop_last());
    } else {
        lemma_sum_by_remove(s.drop_last(), i, f);
        assert(s.remove(i).drop_last() =~= s.drop_last().remove(i));
        assert(s.remove(i).last() == s.last());
    }
}

/// A sum depends only on the multiset of trades, not on their order.
pub proof fn lemma_sum_by_permutation(s1: Seq<Trade>, s2: Seq<Trade>, f: spec_fn(Trade) -> int)
    requires
        s1.to_multiset() == s2.to_multiset(),
    ensures
        sum_by(s1, f) == sum_by(s2, f),
    decreases s1.len(),
{
    broadcast use group_to_multiset_ensures;

    if s1.len() == 0 {
        assert(s2.len() == s2.to_multiset().len());
    } else {
        let x = s1.last();
        assert(s1.contains(x));
        assert(s2.to_multiset().count(x) > 0);
        assert(s2.contains(x));
        let j = choose|j: int| 0 <= j < s2.len() && s2[j] == x;
        assert(s1.remove(s1.len() - 1) =~= s1.drop_last());
        assert(s1.drop_last().to_multiset() == s1.to_multiset().remove(x));
        assert(s2.remove(j).to_multiset() == s2.to_multiset().remove(x));
        lemma_sum_by_remove(s2, j, f);
        lemma_sum_by_permutation(s1.drop_last(), s2.remove(j), f);
    }
}

/// A pointwise bound on the summand bounds the sum by a multiple of the length.
pub proof fn lemma_sum_by_abs_le(s: Seq<Trade>, f: spec_fn(Trade) -> int, b: int)
    requires
        b >= 0,
        forall|i: int| 0 <= i < s.len() ==> -b <= #[trigger] f(s[i]) <= b,
    ensures
        -(s.len() * b) <= sum_by(s, f) <= s.len() * b,
    decreases s.len(),
{
    if s.len() == 0 {
    } else {
        assert(forall|i: int|
            0 <= i < s.drop_last().len() ==> -b <= #[trigger] f(s.drop_last()[i]) <= b);
        lemma_sum_by_abs_le(s.drop_last(), f, b);
        assert(s.last() == s[s.len() - 1]);
        assert((s.len() - 1) * b + b == s.len() * b) by (nonlinear_arith);
    }
}

/// A pointwise nonnegative summand yields a nonnegative sum.
pub proof fn lemma_sum_by_nonneg(s: Seq<Trade>, f: spec_fn(Trade) -> int)
    requires
        forall|i: int| 0 <= i < s.len() ==> #[trigger] f(s[i]) >= 0,
    ensures
        sum_by(s, f) >= 0,
    decreases s.len(),
{
    if s.len() == 0 {
    } else {
        assert(forall|i: int| 0 <= i < s.drop_last().len() ==> #[trigger] f(s.drop_last()[i]) >= 0);
        lemma_sum_by_nonneg(s.drop_last(), f);
        assert(s.last() == s[s.len() - 1]);
    }
}

/// Pointwise dominance between summands carries over to the sums.
pub proof fn lemma_sum_by_pointwise_le(s: Seq<Trade>, f: spec_fn(Trade) -> int, g: spec_fn(
    Trade,
) -> int)
    requires
        forall|i: int| 0 <= i < s.len() ==> #[trigger] f(s[i]) <= #[trigger] g(s[i]),
    ensures
        sum_by(s, f) <= sum_by(s, g),
    decreases s.len(),
{
    if s.len() == 0 {
    } else {
        assert(forall|i: int|
            0 <= i < s.drop_last().len() ==> #[trigger] f(s.drop_last()[i]) <= #[trigger] g(
                s.drop_last()[i],
            ));
        lemma_sum_by_pointwise_le(s.drop_last(), f, g);
        assert(s.last() == s[s.len() - 1]);
    }
}

/// Multiplying a nonnegative factor preserves an upper bound on the other.
pub proof fn lemma_mul_le(a: int, b: int, c: int)
    requires
        0 <= a <= c,
        0 <= b,
    ensures
        a * b <= c * b,
{
    assert(a * b <= c * b) by (nonlinear_arith)
        requires
            0 <= a <= c,
            0 <= b,
    ;
}

/// Every running sum a module keeps stays within `i128` for a bounded
/// history of well-formed trades, and the directional sums stay within
/// their totals.
pub proof fn lemma_hist_sums_bounded(h: Seq<Trade>)
    requires
        wf_hist(h),
        h.len() <= MAX_TRADES,
    ensures
        -0x8000_0000_0000_0000 <= sum_price(h) <= 0x8000_0000_0000_0000,
        -0x8000_0000_0000_0000 <= sum_size(h) <= 0x8000_0000_0000_0000,
        0 <= sum_abs_size(h) <= 0x8000_0000_0000_0000,
        -0x4000_0000_0000_0000_0000_0000 <= sum_weighted_price(h)
            <= 0x4000_0000_0000_0000_0000_0000,
        0 <= buy_count(h) <= h.len(),
        0 <= buy_volume(h) <= sum_abs_size(h),
        0 <= sum_sq_price(h) <= 0x4000_0000_0000_0000_0000_0000,
        0 <= sum_sq_size(h) <= 0x4000_0000_0000_0000_0000_0000,
{
    let pb = PRICE_BOUND as int;
    let sb = SIZE_BOUND as int;
    let n = h.len() as int;
    let m = MAX_TRADES as int;
    assert(m * pb == 0x8000_0000_0000_0000) by (nonlinear_arith)
        requires
            m == 0x1_0000_0000,
            pb == 0x8000_0000,
    ;
    assert(m * (pb * pb) == 0x4000_0000_0000_0000_0000_0000) by (nonlinear_arith)
        requires
            m == 0x1_0000_0000,
            pb == 0x8000_0000,
    ;

    assert forall|i: int| 0 <= i < h.len() implies -pb <= #[trigger] price_of()(h[i]) <= pb by {
        assert(h[i].wf());
        assert(price_of()(h[i]) == h[i].price as int);
    }
    lemma_sum_by_abs_le(h, price_of(), pb);
    lemma_mul_le(n, pb, m);

    assert forall|i: int| 0 <= i < h.len() implies -sb <= #[trigger] size_of()(h[i]) <= sb by {
        assert(h[i].wf());
        assert(size_of()(h[i]) == h[i].size as int);
    }
    lemma_sum_by_abs_le(h, size_of(), sb);
    lemma_mul_le(n, sb, m);

    assert forall|i: int| 0 <= i < h.len() implies -sb <= #[trigger] abs_size_of()(h[i]) <= sb by {
        assert(h[i].wf());
        assert(abs_size_of()(h[i]) == abs(h[i].size as int));
    }
    lemma_sum_by_abs_le(h, abs_size_of(), sb);
    assert forall|i: int| 0 <= i < h.len() implies #[trigger] abs_size_of()(h[i]) >= 0 by {
        assert(abs_size_of()(h[i]) == abs(h[i].size as int));
    }
    lemma_sum_by_nonneg(h, abs_size_of());

    assert forall|i: int| 0 <= i < h.len() implies -(pb * sb) <= #[trigger] weighted_price_of()(
        h[i],
    ) <= pb * sb by {
        assert(h[i].wf());
        assert(weighted_price_of()(h[i]) == (h[i].price as int) * (abs(h[i].size as int) as int));
        assert(-(pb * sb) <= (h[i].price as int) * (abs(h[i].size as int) as int) <= pb * sb)
            by (nonlinear_arith)
            requires
                -pb <= h[i].price as int <= pb,
                0 <= abs(h[i].size as int) <= sb,
                pb >= 0,
        ;
    }
    assert(pb * sb >= 0) by (nonlinear_arith)
        requires
            pb >= 0,
            sb >= 0,
    ;
    lemma_sum_by_abs_le(h, weighted_price_of(), pb * sb);
    lemma_mul_le(n, pb * sb, m);
    assert(m * (pb * sb) == 0x4000_0000_0000_0000_0000_0000) by (nonlinear_arith)
        requires
            m == 0x1_0000_0000,
            pb == 0x8000_0000,
            sb == 0x8000_0000,
    ;

    assert forall|i: int| 0 <= i < h.len() implies 0 <= #[trigger] buy_one_of()(h[i]) <= one_of()(
        h[i],
    ) by {
        assert(one_of()(h[i]) == 1);
    }
    lemma_sum_by_nonneg(h, buy_one_of());
    lemma_sum_by_pointwise_le(h, buy_one_of(), one_of());
    lemma_sum_one_is_len(h);

    assert forall|i: int| 0 <= i < h.len() implies 0 <= #[trigger] buy_size_of()(h[i])
        <= abs_size_of()(h[i]) by {
        assert(h[i].wf());
        assert(abs_size_of()(h[i]) == abs(h[i].size as int));
    }
    lemma_sum_by_nonneg(h, buy_size_of());
    lemma_sum_by_pointwise_le(h, buy_size_of(), abs_size_of());

    assert forall|i: int| 0 <= i < h.len() implies 0 <= #[trigger] sq_price_of()(h[i]) <= pb
        * pb by {
        assert(h[i].wf());
        assert(sq_price_of()(h[i]) == (h[i].price as int) * (h[i].price as int));
        assert(0 <= (h[i].price as int) * (h[i].price as int) <= pb * pb) by (nonlinear_arith)
            requires
                -pb <= h[i].price as int <= pb,
        ;
    }
    assert(pb * pb >= 0) by (nonlinear_arith);
    lemma_sum_by_abs_le(h, sq_price_of(), pb * pb);
    lemma_sum_by_nonneg(h, sq_price_of());
    lemma_mul_le(n, pb * pb, m);

    assert forall|i: int| 0 <= i < h.len() implies 0 <= #[trigger] sq_size_of()(h[i]) <= sb
        * sb by {
        assert(h[i].wf());
        assert(sq_size_of()(h[i]) == (h[i].size as int) * (h[i].size as int));
        assert(0 <= (h[i].size as int) * (h[i].size as int) <= sb * sb) by (nonlinear_arith)
            requires
                -sb <= h[i].size as int <= sb,
        ;
    }
    assert(sb * sb >= 0) by (nonlinear_arith);
    lemma_sum_by_abs_le(h, sq_size_of(), sb * sb);
    lemma_sum_by_nonneg(h, sq_size_of());
    lemma_mul_le(n, sb * sb, m);
    assert(m * (sb * sb) == 0x4000_0000_0000_0000_0000_0000) by (nonlinear_arith)
        requires
            m == 0x1_0000_0000,
            sb == 0x8000_0000,
    ;
}

/// Counting trades is the length of the history.
pub proof fn lemma_sum_one_is_len(s: Seq<Trade>)
    ensures
        sum_by(s, one_of()) == s.len(),
    decreases s.len(),
{
    if s.len() == 0 {
    } else {
        lemma_sum_one_is_len(s.drop_last());
    }
}

} // verus!
