use arb_watch::decimals::{
    apply_resolution, resolution_step, DecimalsCache, ResolutionStep, TokenAddress,
    DEFAULT_DECIMALS,
};

fn token(n: u32) -> TokenAddress {
    TokenAddress { hi: 0, mid: 0, lo: n }
}

#[test]
fn cached_token_needs_no_second_call() {
    let mut cache = DecimalsCache::new();
    assert_eq!(resolution_step(&cache, token(1)), ResolutionStep::NeedsFetch);
    let got = apply_resolution(&mut cache, token(1), Some(6));
    assert_eq!(got, 6);
    // From now on the cache answers: no further fetch is requested.
    assert_eq!(resolution_step(&cache, token(1)), ResolutionStep::Cached(6));
    assert_eq!(cache.lookup(token(1)), Some(6));
}

#[test]
fn unresolvable_token_falls_back_and_stays_retryable() {
    let mut cache = DecimalsCache::new();
    let got = apply_resolution(&mut cache, token(2), None);
    assert_eq!(got, DEFAULT_DECIMALS);
    assert_eq!(got, 18);
    // The fallback was not cached: the next resolution asks again.
    assert_eq!(resolution_step(&cache, token(2)), ResolutionStep::NeedsFetch);
    // A later successful call still lands.
    let got = apply_resolution(&mut cache, token(2), Some(8));
    assert_eq!(got, 8);
    assert_eq!(resolution_step(&cache, token(2)), ResolutionStep::Cached(8));
}

#[test]
fn entries_are_independent_per_token() {
    let mut cache = DecimalsCache::new();
    apply_resolution(&mut cache, token(1), Some(6));
    apply_resolution(&mut cache, token(2), Some(18));
    assert_eq!(cache.lookup(token(1)), Some(6));
    assert_eq!(cache.lookup(token(2)), Some(18));
    assert_eq!(cache.lookup(token(3)), None);
}
