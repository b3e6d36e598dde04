//! Opportunity evaluation.
//!
//! Both quotes are outputs of the same trade size at the same output-token
//! scale, so the per-unit prices `quote / 10^decimals_out / (amount_in /
//! 10^decimals_in)` differ only in the quote factor: comparing prices is
//! comparing raw quotes, and the profit of the round trip, in smallest
//! reference-currency units at the output token's scale, is the quote
//! divergence minus the fixed simulated cost. Working on the raw integers
//! keeps every decision exact.

use vstd::prelude::*;

use crate::amount::{human_eq, ScaledAmount, SignedAmount};

verus! {

/// Identifier of one of the two configured price sources.
#[derive(Clone, Copy, PartialEq, Eq, Structural, Debug)]
pub enum SourceId {
    A,
    B,
}

/// A detected, threshold-clearing divergence for one trade size: buy on
/// `buy_source`, sell on `sell_source`.
#[derive(Clone, Copy, PartialEq, Eq, Structural, Debug)]
pub struct Opportunity {
    pub buy_source: SourceId,
    pub sell_source: SourceId,
    /// Trade size, at the input token's scale.
    pub amount_in: ScaledAmount,
    /// Output quoted by the buy-side source, at the output token's scale.
    pub amount_out_buy: ScaledAmount,
    /// Output quoted by the sell-side source, at the output token's scale.
    pub amount_out_sell: ScaledAmount,
    /// Net profit of the round trip, at the output token's scale.
    pub profit: SignedAmount,
}

/// Absolute divergence between the two quotes, in smallest output units.
pub open spec fn spec_divergence(quote_a: int, quote_b: int) -> int {
    if quote_b >= quote_a {
        quote_b - quote_a
    } else {
        quote_a - quote_b
    }
}

/// Net profit of trading the divergence once: divergence minus the fixed
/// simulated cost, in smallest output units.
pub open spec fn spec_profit(quote_a: int, quote_b: int, cost: int) -> int {
    spec_divergence(quote_a, quote_b) - cost
}

/// A cycle qualifies when the quotes differ and the net profit strictly
/// exceeds the threshold; equal quotes never qualify, whatever the
/// threshold's sign.
pub open spec fn spec_qualifies(quote_a: int, quote_b: int, cost: int, threshold: int) -> bool {
    quote_a != quote_b && spec_profit(quote_a, quote_b, cost) > threshold
}

/// The source to buy from: the one whose quote is lower, i.e. whose price
/// is lower. Meaningful only when the quotes differ.
pub open spec fn spec_buy_source(quote_a: int, quote_b: int) -> SourceId {
    if quote_b > quote_a {
        SourceId::A
    } else {
        SourceId::B
    }
}

pub open spec fn spec_sell_source(quote_a: int, quote_b: int) -> SourceId {
    if quote_b > quote_a {
        SourceId::B
    } else {
        SourceId::A
    }
}

/// `v` smallest units at scale `decimals`, as a signed amount. Exact
/// whenever `|v| <= u128::MAX`, which holds for every profit value.
pub open spec fn spec_signed(v: int, decimals: u32) -> SignedAmount {
    SignedAmount {
        negative: v < 0,
        units: (if v < 0 {
            -v
        } else {
            v
        }) as u128,
        decimals,
    }
}

/// What `evaluate` returns: the full record when the cycle qualifies,
/// nothing otherwise.
pub open spec fn spec_evaluate(
    amount_in: u128,
    quote_a: u128,
    quote_b: u128,
    decimals_in: u32,
    decimals_out: u32,
    cost: u128,
    threshold: i128,
) -> Option<Opportunity> {
    if spec_qualifies(quote_a as int, quote_b as int, cost as int, threshold as int) {
        Some(
            Opportunity {
                buy_source: spec_buy_source(quote_a as int, quote_b as int),
                sell_source: spec_sell_source(quote_a as int, quote_b as int),
                amount_in: ScaledAmount { units: amount_in, decimals: decimals_in },
                amount_out_buy: ScaledAmount {
                    units: if quote_b > quote_a {
                        quote_a
                    } else {
                        quote_b
                    },
                    decimals: decimals_out,
                },
                amount_out_sell: ScaledAmount {
                    units: if quote_b > quote_a {
                        quote_b
                    } else {
                        quote_a
                    },
                    decimals: decimals_out,
                },
                profit: spec_signed(
                    spec_profit(quote_a as int, quote_b as int, cost as int),
                    decimals_out,
                ),
            },
        )
    } else {
        None
    }
}

/// `a - b` as a signed amount at scale `decimals`; exact for any `u128`
/// operands.
fn signed_minus(a: u128, b: u128, decimals: u32) -> (r: SignedAmount)
    ensures
        r == spec_signed(a - b, decimals),
        r.wf(),
{
    if a >= b {
        SignedAmount { negative: false, units: a - b, decimals }
    } else {
        SignedAmount { negative: true, units: b - a, decimals }
    }
}

/// Magnitude of a strictly negative `i128`, exact at `i128::MIN` too.
fn negative_magnitude(t: i128) -> (r: u128)
    requires
        t < 0,
    ensures
        r == -(t as int),
{
    ((-(t + 1)) as u128) + 1
}

/// Whether the signed count of units strictly exceeds the threshold.
fn signed_exceeds(p: &SignedAmount, threshold: i128) -> (r: bool)
    ensures
        r == (p.signed_units() > threshold as int),
{
    if !p.negative {
        if threshold < 0 {
            true
        } else {
            p.units > threshold as u128
        }
    } else {
        if threshold >= 0 {
            false
        } else {
            p.units < negative_magnitude(threshold)
        }
    }
}

/// Decide whether the two quotes for one trade diverge profitably.
///
/// `quote_a` and `quote_b` are the outputs the two sources quote for the
/// same `amount_in`, in smallest output units; `cost` and `threshold` are
/// in smallest reference-currency units at the output token's scale. The
/// result is the single qualifying record, or nothing: nothing whenever the
/// net profit fails to strictly exceed the threshold, and in particular
/// whenever the quotes are equal.
pub fn evaluate(
    amount_in: u128,
    quote_a: u128,
    quote_b: u128,
    decimals_in: u32,
    decimals_out: u32,
    cost: u128,
    threshold: i128,
) -> (r: Option<Opportunity>)
    requires
        amount_in > 0,
    ensures
        r == spec_evaluate(amount_in, quote_a, quote_b, decimals_in, decimals_out, cost, threshold),
        (r is Some) <==> spec_qualifies(
            quote_a as int,
            quote_b as int,
            cost as int,
            threshold as int,
        ),
        quote_a == quote_b ==> r is None,
        r is Some && quote_b > quote_a ==> r->Some_0.buy_source == SourceId::A
            && r->Some_0.sell_source == SourceId::B,
        r is Some && quote_a > quote_b ==> r->Some_0.buy_source == SourceId::B
            && r->Some_0.sell_source == SourceId::A,
        r is Some ==> r->Some_0.profit.signed_units() == spec_profit(
            quote_a as int,
            quote_b as int,
            cost as int,
        ) && r->Some_0.profit.decimals == decimals_out,
{
    if quote_a == quote_b {
        return None;
    }
    let lower: u128 = if quote_b > quote_a {
        quote_a
    } else {
        quote_b
    };
    let higher: u128 = if quote_b > quote_a {
        quote_b
    } else {
        quote_a
    };
    let profit = signed_minus(higher - lower, cost, decimals_out);
    if !signed_exceeds(&profit, threshold) {
        return None;
    }
    let buy_source = if quote_b > quote_a {
        SourceId::A
    } else {
        SourceId::B
    };
    let sell_source = if quote_b > quote_a {
        SourceId::B
    } else {
        SourceId::A
    };
    Some(
        Opportunity {
            buy_source,
            sell_source,
            amount_in: ScaledAmount { units: amount_in, decimals: decimals_in },
            amount_out_buy: ScaledAmount { units: lower, decimals: decimals_out },
            amount_out_sell: ScaledAmount { units: higher, decimals: decimals_out },
            profit,
        },
    )
}

/// With a strictly positive trade size the two per-unit prices share one
/// positive factor (`10^decimals_in / (10^decimals_out * amount_in)`), so
/// comparing prices is comparing raw quotes; stated in the cross-multiplied
/// form that keeps the arithmetic in integers.
pub proof fn lemma_price_comparison(quote_a: int, quote_b: int, common: int)
    requires
        common > 0,
    ensures
        quote_b * common > quote_a * common <==> quote_b > quote_a,
{
    assert(quote_b * common > quote_a * common <==> quote_b > quote_a) by (nonlinear_arith)
        requires
            common > 0,
    ;
}

/// Quotes equal in human-readable terms yield no opportunity, whatever the
/// sign of the threshold.
pub proof fn lemma_equal_quotes_no_opportunity(
    amount_in: u128,
    quote_a: u128,
    quote_b: u128,
    decimals_in: u32,
    decimals_out: u32,
    cost: u128,
    threshold: i128,
)
    requires
        human_eq(
            ScaledAmount { units: quote_a, decimals: decimals_out },
            ScaledAmount { units: quote_b, decimals: decimals_out },
        ),
    ensures
        spec_evaluate(
            amount_in,
            quote_a,
            quote_b,
            decimals_in,
            decimals_out,
            cost,
            threshold,
        ) is None,
{
    crate::amount::lemma_human_eq_same_scale(
        ScaledAmount { units: quote_a, decimals: decimals_out },
        ScaledAmount { units: quote_b, decimals: decimals_out },
    );
}

/// Swapping the two quotes swaps the buy and sell sources and nothing
/// else: qualification, profit, and the two recorded outputs are
/// unchanged.
pub proof fn lemma_swap_quotes_symmetry(
    amount_in: u128,
    quote_a: u128,
    quote_b: u128,
    decimals_in: u32,
    decimals_out: u32,
    cost: u128,
    threshold: i128,
)
    ensures
        spec_qualifies(quote_a as int, quote_b as int, cost as int, threshold as int)
            == spec_qualifies(quote_b as int, quote_a as int, cost as int, threshold as int),
        spec_profit(quote_a as int, quote_b as int, cost as int) == spec_profit(
            quote_b as int,
            quote_a as int,
            cost as int,
        ),
        spec_evaluate(amount_in, quote_a, quote_b, decimals_in, decimals_out, cost, threshold)
            matches Some(forward) ==> spec_evaluate(
            amount_in,
            quote_b,
            quote_a,
            decimals_in,
            decimals_out,
            cost,
            threshold,
        ) matches Some(swapped) && swapped.buy_source == forward.sell_source
            && swapped.sell_source == forward.buy_source && swapped.profit == forward.profit
            && swapped.amount_out_buy == forward.amount_out_buy && swapped.amount_out_sell
            == forward.amount_out_sell && swapped.amount_in == forward.amount_in,
{
}

} // verus!
