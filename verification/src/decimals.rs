//! Decimal-exponent resolution with a lazy, never-evicted cache.
//!
//! The fractional-unit exponent of a token is resolved through an external
//! read-only contract call at most once per token: a hit in the cache
//! answers without any call, a successful resolution is cached for the
//! process lifetime, and a failed resolution yields the fallback exponent
//! without caching it, so a later call may retry. The external call itself
//! is the transport's business; this module owns the cache and the
//! decision, and the caller hands the call's outcome back in.

use vstd::prelude::*;

verus! {

/// Fallback fractional-unit exponent used when resolution fails.
pub const DEFAULT_DECIMALS: u8 = 18;

/// A 160-bit token address, held as plain integers: high and middle 64
/// bits, then the low 32 bits, in big-endian order.
#[derive(Clone, Copy, PartialEq, Eq, Structural, Debug)]
pub struct TokenAddress {
    pub hi: u64,
    pub mid: u64,
    pub lo: u32,
}

/// What the resolver decides for one token: answer from the cache, or ask
/// the caller to perform one external resolution call.
#[derive(Clone, Copy, PartialEq, Eq, Structural, Debug)]
pub enum ResolutionStep {
    Cached(u8),
    NeedsFetch,
}

/// Token address to decimal exponent, populated lazily, entries never
/// evicted or overwritten.
pub struct DecimalsCache {
    entries: Vec<(TokenAddress, u8)>,
}

impl DecimalsCache {
    /// Each token appears at most once.
    pub closed spec fn wf(self) -> bool {
        forall|i: int, j: int|
            0 <= i < j < self.entries@.len() ==> (#[trigger] self.entries@[i]).0 != (
            #[trigger] self.entries@[j]).0
    }

    pub closed spec fn contains(self, token: TokenAddress) -> bool {
        exists|i: int| 0 <= i < self.entries@.len() && (#[trigger] self.entries@[i]).0 == token
    }

    pub closed spec fn value_of(self, token: TokenAddress) -> u8 {
        self.entries@[choose|i: int|
            0 <= i < self.entries@.len() && (#[trigger] self.entries@[i]).0 == token].1
    }

    /// The cache as a partial mapping from token to exponent.
    pub open spec fn lookup_spec(self, token: TokenAddress) -> Option<u8> {
        if self.contains(token) {
            Some(self.value_of(token))
        } else {
            None
        }
    }

    /// An empty cache.
    pub fn new() -> (c: Self)
        ensures
            c.wf(),
            forall|t: TokenAddress| #[trigger] c.lookup_spec(t) is None,
    {
        DecimalsCache { entries: Vec::new() }
    }

    /// The cached exponent for `token`, if resolution already succeeded
    /// once for it.
    pub fn lookup(&self, token: TokenAddress) -> (r: Option<u8>)
        requires
            self.wf(),
        ensures
            r == self.lookup_spec(token),
    {
        let mut i: usize = 0;
        while i < self.entries.len()
            invariant
                self.wf(),
                i <= self.entries@.len(),
                forall|j: int| 0 <= j < i ==> (#[trigger] self.entries@[j]).0 != token,
            decreases self.entries@.len() - i,
        {
            let (candidate, d) = self.entries[i];
            if candidate.hi == token.hi && candidate.mid == token.mid && candidate.lo == token.lo {
                proof {
                    assert(self.entries@[i as int].0 == token);
                    let w = choose|k: int|
                        0 <= k < self.entries@.len() && (#[trigger] self.entries@[k]).0 == token;
                    if w < i as int {
                        assert(self.entries@[w].0 != self.entries@[i as int].0);
                    } else if (i as int) < w {
                        assert(self.entries@[i as int].0 != self.entries@[w].0);
                    }
                    assert(w == i as int);
                }
                return Some(d);
            }
            i = i + 1;
        }
        proof {
            assert(!self.contains(token));
        }
        None
    }

    /// Record a successful resolution for a token seen for the first time.
    /// Nothing already cached changes.
    pub fn insert(&mut self, token: TokenAddress, decimals: u8)
        requires
            old(self).wf(),
            !old(self).contains(token),
        ensures
            final(self).wf(),
            final(self).lookup_spec(token) == Some(decimals),
            forall|u: TokenAddress|
                u != token ==> #[trigger] final(self).lookup_spec(u) == old(self).lookup_spec(u),
    {
        self.entries.push((token, decimals));
        proof {
            let n = self.entries@.len() - 1;
            assert(self.entries@[n].0 == token);
            assert(forall|i: int| 0 <= i < n ==> self.entries@[i] == old(self).entries@[i]);
            assert(self.wf());
            let w = choose|k: int|
                0 <= k < self.entries@.len() && (#[trigger] self.entries@[k]).0 == token;
            assert(w == n);
            assert forall|u: TokenAddress| u != token implies #[trigger] self.lookup_spec(u) == old(
                self,
            ).lookup_spec(u) by {
                if old(self).contains(u) {
                    let k = choose|k: int|
                        0 <= k < old(self).entries@.len() && (#[trigger] old(self).entries@[k]).0
                            == u;
                    assert(self.entries@[k].0 == u);
                    let k2 = choose|k2: int|
                        0 <= k2 < self.entries@.len() && (#[trigger] self.entries@[k2]).0 == u;
                    assert(k2 == k);
                } else {
                    assert forall|k: int| 0 <= k < self.entries@.len() implies (
                    #[trigger] self.entries@[k]).0 != u by {
                        if k < n {
                            assert(old(self).entries@[k].0 != u);
                        }
                    }
                }
            }
        }
    }
}

/// What `spec_resolution_step` decides, as a value: a cached token is
/// answered from the cache; only an uncached one asks for a call.
pub open spec fn spec_resolution_step(cache: DecimalsCache, token: TokenAddress) -> ResolutionStep {
    match cache.lookup_spec(token) {
        Some(d) => ResolutionStep::Cached(d),
        None => ResolutionStep::NeedsFetch,
    }
}

/// First half of one resolution: consult the cache. A token that was ever
/// resolved successfully is answered here, so it never triggers a second
/// external call.
pub fn resolution_step(cache: &DecimalsCache, token: TokenAddress) -> (r: ResolutionStep)
    requires
        cache.wf(),
    ensures
        r == spec_resolution_step(*cache, token),
        cache.contains(token) <==> r is Cached,
{
    match cache.lookup(token) {
        Some(d) => ResolutionStep::Cached(d),
        None => ResolutionStep::NeedsFetch,
    }
}

/// Second half of one resolution, after the caller performed the external
/// call for an uncached token: a successful outcome is cached and
/// returned; a failed one returns the fallback exponent and caches
/// nothing, so the token stays retryable.
pub fn apply_resolution(cache: &mut DecimalsCache, token: TokenAddress, fetched: Option<u8>) -> (r:
    u8)
    requires
        old(cache).wf(),
        !old(cache).contains(token),
    ensures
        final(cache).wf(),
        fetched matches Some(d) ==> r == d && final(cache).lookup_spec(token) == Some(d),
        fetched is None ==> r == DEFAULT_DECIMALS && *final(cache) == *old(cache),
        forall|u: TokenAddress|
            u != token ==> #[trigger] final(cache).lookup_spec(u) == old(cache).lookup_spec(u),
{
    match fetched {
        Some(d) => {
            cache.insert(token, d);
            d
        },
        None => DEFAULT_DECIMALS,
    }
}

/// A token whose resolution has succeeded once is answered from the cache
/// ever after: no second external call.
pub proof fn lemma_cached_token_not_refetched(cache: DecimalsCache, token: TokenAddress, d: u8)
    requires
        cache.lookup_spec(token) == Some(d),
    ensures
        spec_resolution_step(cache, token) == ResolutionStep::Cached(d),
{
}

/// A token that failed to resolve is absent from the cache, so the next
/// resolution asks for a fresh external call: the fallback masks the
/// failure without ending retries.
pub proof fn lemma_unresolved_token_retryable(cache: DecimalsCache, token: TokenAddress)
    requires
        cache.lookup_spec(token) is None,
    ensures
        spec_resolution_step(cache, token) == ResolutionStep::NeedsFetch,
{
}

} // verus!
