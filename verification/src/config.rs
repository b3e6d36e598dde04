//! Validated run configuration.
//!
//! Values arrive from the environment as plain parsed data; this module
//! owns the invariant that makes a run meaningful: a strictly positive
//! trade size (the evaluator divides by it, in human-readable terms), a
//! strictly positive sampling interval, and two distinct source routers.
//! A configuration that breaks the invariant is rejected at construction,
//! which is the fatal-startup-error path.

use vstd::prelude::*;

use crate::decimals::TokenAddress;

verus! {

/// Why a configuration was rejected at startup.
#[derive(Clone, Copy, PartialEq, Eq, Structural, Debug)]
pub enum ConfigError {
    ZeroTradeSize,
    ZeroPollInterval,
    IdenticalRouters,
}

/// Read-only configuration, owned by the process for its lifetime.
///
/// `min_profit` and `simulated_cost` are in smallest reference-currency
/// units at the output token's scale; `trade_size` is in the input token's
/// smallest unit.
#[derive(Debug)]
pub struct Config {
    pub rpc_url: String,
    pub dex_a_router: TokenAddress,
    pub dex_b_router: TokenAddress,
    pub token_in: TokenAddress,
    pub token_out: TokenAddress,
    pub trade_size: u128,
    pub min_profit: i128,
    pub poll_interval_secs: u64,
    pub simulated_cost: u128,
    pub database_path: String,
}

impl Config {
    /// The startup invariant.
    pub open spec fn wf(self) -> bool {
        self.trade_size > 0 && self.poll_interval_secs > 0 && self.dex_a_router
            != self.dex_b_router
    }

    /// Build a configuration, rejecting exactly the inputs that break the
    /// startup invariant, first violation first.
    pub fn new(
        rpc_url: String,
        dex_a_router: TokenAddress,
        dex_b_router: TokenAddress,
        token_in: TokenAddress,
        token_out: TokenAddress,
        trade_size: u128,
        min_profit: i128,
        poll_interval_secs: u64,
        simulated_cost: u128,
        database_path: String,
    ) -> (r: Result<Config, ConfigError>)
        ensures
            (r is Ok) <==> (trade_size > 0 && poll_interval_secs > 0 && dex_a_router
                != dex_b_router),
            trade_size == 0 ==> r == Result::<Config, ConfigError>::Err(ConfigError::ZeroTradeSize),
            trade_size > 0 && poll_interval_secs == 0 ==> r == Result::<Config, ConfigError>::Err(
                ConfigError::ZeroPollInterval,
            ),
            trade_size > 0 && poll_interval_secs > 0 && dex_a_router == dex_b_router ==> r
                == Result::<Config, ConfigError>::Err(ConfigError::IdenticalRouters),
            r matches Ok(c) ==> c.wf() && c == (Config {
                rpc_url,
                dex_a_router,
                dex_b_router,
                token_in,
                token_out,
                trade_size,
                min_profit,
                poll_interval_secs,
                simulated_cost,
                database_path,
            }),
    {
        if trade_size == 0 {
            return Err(ConfigError::ZeroTradeSize);
        }
        if poll_interval_secs == 0 {
            return Err(ConfigError::ZeroPollInterval);
        }
        if dex_a_router.hi == dex_b_router.hi && dex_a_router.mid == dex_b_router.mid
            && dex_a_router.lo == dex_b_router.lo {
            return Err(ConfigError::IdenticalRouters);
        }
        Ok(
            Config {
                rpc_url,
                dex_a_router,
                dex_b_router,
                token_in,
                token_out,
                trade_size,
                min_profit,
                poll_interval_secs,
                simulated_cost,
                database_path,
            },
        )
    }
}

} // verus!
