//! Policy synchronisation: the fetched policy where the fetch succeeds, the
//! cached one where it does not.

use crate::authority::{
    fetch_forbidden_list, fetch_outcome, is_success, FetchResponse, FetchResponseView,
};
use crate::policy::{
    cache_record, load_from_cache, load_outcome, policy_view, CacheRead, CacheReadView,
    ForbiddenApp, ForbiddenAppView,
};
use vstd::prelude::*;

verus! {

/// The policy to fall back on after a failed fetch: what the cache holds, or
/// the empty policy where the cache is unavailable too.
pub open spec fn fallback_spec(cached: CacheReadView) -> Seq<ForbiddenAppView> {
    match load_outcome(cached) {
        Ok(cache) => cache.apps,
        Err(_) => Seq::empty(),
    }
}

/// The policy in force after a sync: the fetched one, or the fallback.
pub open spec fn sync_spec(response: FetchResponseView, cached: CacheReadView) -> Seq<
    ForbiddenAppView,
> {
    match fetch_outcome(response) {
        Ok(apps) => apps,
        Err(_) => fallback_spec(cached),
    }
}

/// The policy to use when the fetch failed: the cached rules, or none where
/// the cache is missing, unreadable or corrupt.
pub fn fallback_policy(cached: CacheRead) -> (policy: Vec<ForbiddenApp>)
    ensures
        policy_view(policy@) == fallback_spec(cached@),
{
    match load_from_cache(cached) {
        Ok(cache) => cache.apps,
        Err(_) => {
            let apps: Vec<ForbiddenApp> = Vec::new();
            assert(policy_view(apps@) == Seq::<ForbiddenAppView>::empty());
            apps
        },
    }
}

/// The outcome of one sync, from the authority's answer and the state of the
/// cache: the fetched policy where the fetch succeeded; otherwise the cached
/// policy; the empty policy where both are unavailable. A sync never fails.
pub fn sync_forbidden_list(response: FetchResponse, cached: CacheRead) -> (policy: Vec<
    ForbiddenApp,
>)
    ensures
        policy_view(policy@) == sync_spec(response@, cached@),
{
    match fetch_forbidden_list(response) {
        Ok(apps) => apps,
        Err(_) => fallback_policy(cached),
    }
}

/// After a sync that fetched the policy `apps` and stored it in the cache at the
/// time `stored_at`, a sync whose fetch fails returns exactly `apps`, as long as
/// the cache still holds that record.
pub proof fn lemma_fallback_returns_last_synced(
    apps: Seq<ForbiddenAppView>,
    stored_at: u64,
    response: FetchResponseView,
)
    requires
        fetch_outcome(response) is Err,
    ensures
        sync_spec(response, CacheReadView::Loaded(cache_record(apps, stored_at))) == apps,
{
}

/// A sync whose fetch succeeds returns the fetched policy, whatever the cache holds.
pub proof fn lemma_sync_prefers_fetched(
    apps: Seq<ForbiddenAppView>,
    status: u16,
    cached: CacheReadView,
)
    requires
        is_success(status),
    ensures
        sync_spec(FetchResponseView::Answered { status, body: Some(apps) }, cached) == apps,
{
}

} // verus!
