use arb_watch::config::{Config, ConfigError};
use arb_watch::decimals::TokenAddress;

fn token(n: u32) -> TokenAddress {
    TokenAddress { hi: 0, mid: 0, lo: n }
}

fn build(trade_size: u128, poll: u64, router_a: TokenAddress, router_b: TokenAddress) -> Result<Config, ConfigError> {
    Config::new(
        String::from("http://localhost:8545"),
        router_a,
        router_b,
        token(10),
        token(11),
        trade_size,
        5,
        poll,
        1,
        String::from("opportunities.db"),
    )
}

#[test]
fn valid_configuration_is_accepted() {
    let cfg = build(1000, 30, token(1), token(2)).expect("valid configuration");
    assert_eq!(cfg.trade_size, 1000);
    assert_eq!(cfg.poll_interval_secs, 30);
    assert_eq!(cfg.min_profit, 5);
    assert_eq!(cfg.simulated_cost, 1);
    assert_eq!(cfg.rpc_url, "http://localhost:8545");
    assert_eq!(cfg.database_path, "opportunities.db");
}

#[test]
fn zero_trade_size_is_fatal() {
    assert_eq!(build(0, 30, token(1), token(2)).unwrap_err(), ConfigError::ZeroTradeSize);
}

#[test]
fn zero_poll_interval_is_fatal() {
    assert_eq!(build(1000, 0, token(1), token(2)).unwrap_err(), ConfigError::ZeroPollInterval);
}

#[test]
fn identical_routers_are_fatal() {
    assert_eq!(build(1000, 30, token(1), token(1)).unwrap_err(), ConfigError::IdenticalRouters);
}

#[test]
fn first_violation_is_reported() {
    assert_eq!(build(0, 0, token(1), token(1)).unwrap_err(), ConfigError::ZeroTradeSize);
    assert_eq!(build(1, 0, token(1), token(1)).unwrap_err(), ConfigError::ZeroPollInterval);
}
