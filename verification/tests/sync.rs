use itam_agent::authority::FetchResponse;
use itam_agent::policy::{cache_to_disk, CacheRead, ForbiddenApp};
use itam_agent::sync::{fallback_policy, sync_forbidden_list};

fn rule(pattern: &str, severity: &str) -> ForbiddenApp {
    ForbiddenApp { process_name: pattern.to_string(), severity: severity.to_string() }
}

fn pairs(apps: &[ForbiddenApp]) -> Vec<(String, String)> {
    apps.iter().map(|a| (a.process_name.clone(), a.severity.clone())).collect()
}

fn fetched(apps: Vec<ForbiddenApp>) -> FetchResponse {
    FetchResponse::Answered { status: 200, body: Some(apps) }
}

#[test]
fn sync_returns_the_fetched_policy() {
    let policy = sync_forbidden_list(fetched(vec![rule("chrome", "high")]), CacheRead::Missing);
    assert_eq!(pairs(&policy), vec![("chrome".to_string(), "high".to_string())]);
}

#[test]
fn sync_prefers_the_fetched_policy_to_the_cache() {
    let cached = CacheRead::Loaded(cache_to_disk(&[rule("old", "low")], 1));
    let policy = sync_forbidden_list(fetched(vec![rule("new", "high")]), cached);
    assert_eq!(pairs(&policy), vec![("new".to_string(), "high".to_string())]);
}

#[test]
fn sync_falls_back_to_the_last_synced_policy() {
    // A first sync succeeds and its policy goes to the cache.
    let first = vec![rule("chrome", "high"), rule("steam", "low")];
    let policy = sync_forbidden_list(fetched(clone(&first)), CacheRead::Missing);
    let stored = cache_to_disk(&policy, 1000);
    // The next fetch fails, on the network or at the authority.
    let offline = sync_forbidden_list(FetchResponse::Unreachable, CacheRead::Loaded(stored.clone()));
    assert_eq!(pairs(&offline), pairs(&first));
    let refused = sync_forbidden_list(
        FetchResponse::Answered { status: 403, body: None },
        CacheRead::Loaded(stored),
    );
    assert_eq!(pairs(&refused), pairs(&first));
}

fn clone(apps: &[ForbiddenApp]) -> Vec<ForbiddenApp> {
    apps.iter().map(|a| a.clone()).collect()
}

#[test]
fn sync_falls_back_on_a_body_that_is_no_list() {
    let cached = CacheRead::Loaded(cache_to_disk(&[rule("kept", "low")], 1));
    let policy = sync_forbidden_list(FetchResponse::Answered { status: 200, body: None }, cached);
    assert_eq!(pairs(&policy), vec![("kept".to_string(), "low".to_string())]);
}

#[test]
fn sync_without_fetch_and_without_cache_gives_the_empty_policy() {
    assert!(sync_forbidden_list(FetchResponse::Unreachable, CacheRead::Missing).is_empty());
    assert!(sync_forbidden_list(FetchResponse::Unreachable, CacheRead::Unreadable).is_empty());
    assert!(sync_forbidden_list(FetchResponse::Unreachable, CacheRead::Corrupt).is_empty());
}

#[test]
fn fallback_is_what_the_cache_holds_or_nothing() {
    let cached = CacheRead::Loaded(cache_to_disk(&[rule("a", "1"), rule("b", "2")], 9));
    assert_eq!(
        pairs(&fallback_policy(cached)),
        vec![("a".to_string(), "1".to_string()), ("b".to_string(), "2".to_string())]
    );
    assert!(fallback_policy(CacheRead::Missing).is_empty());
    assert!(fallback_policy(CacheRead::Unreadable).is_empty());
    assert!(fallback_policy(CacheRead::Corrupt).is_empty());
}
