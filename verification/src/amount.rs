//! Exact token and reference-currency quantities.
//!
//! A token amount travels through the system as an integer count of the
//! token's smallest indivisible unit together with the token's decimal
//! exponent; the human-readable value is `units / 10^decimals`. Keeping the
//! pair instead of a pre-divided number keeps every comparison exact.

use vstd::prelude::*;

verus! {

/// A non-negative quantity: `units` of the smallest unit of a token whose
/// human-readable whole equals `10^decimals` smallest units.
#[derive(Clone, Copy, PartialEq, Eq, Structural, Debug)]
pub struct ScaledAmount {
    pub units: u128,
    pub decimals: u32,
}

/// A signed quantity at a decimal scale, used for net profit, which may be
/// negative when a negative threshold admits losing divergences.
#[derive(Clone, Copy, PartialEq, Eq, Structural, Debug)]
pub struct SignedAmount {
    pub negative: bool,
    pub units: u128,
    pub decimals: u32,
}

pub open spec fn pow10(n: nat) -> int
    decreases n,
{
    if n == 0 {
        1
    } else {
        10 * pow10((n - 1) as nat)
    }
}

pub proof fn lemma_pow10_positive(n: nat)
    ensures
        pow10(n) > 0,
    decreases n,
{
    if n > 0 {
        lemma_pow10_positive((n - 1) as nat);
    }
}

/// Two amounts are equal in human-readable terms when
/// `a.units / 10^a.decimals == b.units / 10^b.decimals`, written here in
/// cross-multiplied form to stay in integer arithmetic.
pub open spec fn human_eq(a: ScaledAmount, b: ScaledAmount) -> bool {
    a.units * pow10(b.decimals as nat) == b.units * pow10(a.decimals as nat)
}

/// At a common scale, human-readable equality is exactly equality of the
/// raw unit counts.
pub proof fn lemma_human_eq_same_scale(a: ScaledAmount, b: ScaledAmount)
    requires
        a.decimals == b.decimals,
    ensures
        human_eq(a, b) <==> a.units == b.units,
{
    lemma_pow10_positive(a.decimals as nat);
    let p = pow10(a.decimals as nat);
    assert(a.units * p == b.units * p <==> a.units == b.units) by (nonlinear_arith)
        requires
            p > 0,
    ;
}

impl SignedAmount {
    /// The signed count of smallest units this quantity stands for.
    pub open spec fn signed_units(self) -> int {
        if self.negative {
            -(self.units as int)
        } else {
            self.units as int
        }
    }

    /// Zero is canonically non-negative, so equal values have equal fields.
    pub open spec fn wf(self) -> bool {
        self.units == 0 ==> !self.negative
    }
}

} // verus!
