//! One sampling cycle, from quote outcomes to the store.
//!
//! The loop that ticks, sleeps, and performs the two transport calls lives
//! outside this crate; it hands this module the outcome of each source's
//! quote call (`None` for a transport failure, otherwise the amounts along
//! the path) and this module decides the rest of the cycle: a failed call
//! abandons the cycle without touching the store, an empty or truncated
//! amounts list counts as a zero quote ("no liquidity"), and a qualifying
//! divergence is appended to the log exactly once.

use vstd::prelude::*;

use crate::config::Config;
use crate::evaluate::evaluate;
use crate::evaluate::spec_evaluate;
use crate::store::OpportunityStore;

verus! {

/// How one cycle ended.
#[derive(Clone, Copy, PartialEq, Eq, Structural, Debug)]
pub enum CycleOutcome {
    /// A quote call failed at the transport; the store was not touched.
    Aborted,
    /// Both quotes arrived but the divergence did not qualify.
    NoOpportunity,
    /// A qualifying opportunity was appended to the store.
    Recorded,
}

/// The final hop's output of a quoted path, with an empty result counting
/// as a zero quote.
pub open spec fn last_or_zero(amounts: Seq<u128>) -> u128 {
    if amounts.len() == 0 {
        0
    } else {
        amounts.last()
    }
}

/// The amount the swap would yield: the last entry of the quoted path, or
/// zero when the source returned an empty list.
pub fn final_hop_amount(amounts: &Vec<u128>) -> (r: u128)
    ensures
        r == last_or_zero(amounts@),
{
    if amounts.len() == 0 {
        0
    } else {
        amounts[amounts.len() - 1]
    }
}

/// Run the decision half of one cycle.
///
/// `quotes_a` and `quotes_b` are the outcomes of the two transport calls:
/// `None` for a failure, otherwise the quoted amounts along the path. A
/// failure on either side aborts the cycle with the store unchanged; with
/// both quotes in hand the evaluator decides, and exactly its qualifying
/// record, stamped with the current time, is appended.
pub fn process_cycle(
    store: &mut OpportunityStore,
    cfg: &Config,
    quotes_a: Option<Vec<u128>>,
    quotes_b: Option<Vec<u128>>,
    decimals_in: u32,
    decimals_out: u32,
) -> (r: CycleOutcome)
    requires
        cfg.wf(),
    ensures
        quotes_a is None || quotes_b is None ==> r == CycleOutcome::Aborted && final(store)@ == old(
            store,
        )@,
        quotes_a is Some && quotes_b is Some ==> {
            let outcome = spec_evaluate(
                cfg.trade_size,
                last_or_zero(quotes_a.unwrap()@),
                last_or_zero(quotes_b.unwrap()@),
                decimals_in,
                decimals_out,
                cfg.simulated_cost,
                cfg.min_profit,
            );
            &&& outcome is None ==> r == CycleOutcome::NoOpportunity && final(store)@ == old(
                store,
            )@
            &&& outcome matches Some(op) ==> r == CycleOutcome::Recorded && final(store)@.len()
                == old(store)@.len() + 1 && final(store)@.last().opportunity == op && (forall|
                i: int,
            |
                0 <= i < old(store)@.len() ==> final(store)@[i] == old(store)@[i])
        },
{
    let amounts_a = match quotes_a {
        Some(v) => v,
        None => {
            return CycleOutcome::Aborted;
        },
    };
    let amounts_b = match quotes_b {
        Some(v) => v,
        None => {
            return CycleOutcome::Aborted;
        },
    };
    let quote_a = final_hop_amount(&amounts_a);
    let quote_b = final_hop_amount(&amounts_b);
    match evaluate(
        cfg.trade_size,
        quote_a,
        quote_b,
        decimals_in,
        decimals_out,
        cfg.simulated_cost,
        cfg.min_profit,
    ) {
        Some(op) => {
            store.append_now(op);
            CycleOutcome::Recorded
        },
        None => CycleOutcome::NoOpportunity,
    }
}

} // verus!
