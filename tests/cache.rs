use leptos_cache::ConfigError;
use leptos_cache::Effect;
use leptos_cache::FetchPlan;
use leptos_cache::QueryClient;
use leptos_cache::QueryOptions;
use leptos_cache::QueryScope;
use leptos_cache::DEFAULT_GC_TIME;
use leptos_cache::DEFAULT_STALE_TIME;

/// Runs one fetch the way a host does when nobody else holds the key's lock:
/// serve a fresh entry, else call the fetcher and store what it returns.
fn fetch(client: &mut QueryClient<u64>, scope: &QueryScope, key: u64, now: u64, calls: &mut u32) -> u64 {
    if let Some(v) = client.fetch_cached(scope, key, now) {
        return *v;
    }
    client.fetcher_mutex(scope, key);
    *calls += 1;
    let v = key * 2;
    client.store_fetched_at(scope, key, v, None, None, now);
    v
}

fn ten_seconds_scope() -> QueryScope {
    let options = QueryOptions::new()
        .set_stale_time(10_000)
        .unwrap()
        .set_gc_time(300_000)
        .unwrap();
    QueryScope::new(1, options)
}

#[test]
fn fetch_invalidate_refetch_scenario() {
    let scope = ten_seconds_scope();
    let mut client: QueryClient<u64> = QueryClient::new();
    let mut calls = 0;
    assert_eq!(fetch(&mut client, &scope, 2, 1_000, &mut calls), 4);
    assert_eq!(calls, 1);
    assert_eq!(fetch(&mut client, &scope, 2, 1_000, &mut calls), 4);
    assert_eq!(calls, 1);
    assert!(client.invalidate_query(&scope, 2));
    assert_eq!(client.get_cached_query(&scope, 2), Some(&4));
    assert_eq!(fetch(&mut client, &scope, 2, 1_000, &mut calls), 4);
    assert_eq!(calls, 2);
}

#[test]
fn concurrent_fetches_share_one_call() {
    let scope = QueryScope::plain(7);
    let mut client: QueryClient<u64> = QueryClient::new();
    let mut calls = 0;
    let now = 5_000;
    // All ten callers miss the cache and ask for the same lock.
    let mut locks = Vec::new();
    for _ in 0..10 {
        assert!(client.fetch_cached(&scope, 1, now).is_none());
        locks.push(client.fetcher_mutex(&scope, 1));
    }
    assert!(locks.iter().all(|l| *l == locks[0]));
    // The first takes the lock and fetches; the fetcher sleeps 30 ms.
    calls += 1;
    client.store_fetched_at(&scope, 1, 2, None, None, now + 30);
    // The nine others waited; each rechecks once the lock is free.
    let mut results = vec![2];
    for _ in 0..9 {
        assert_eq!(client.recheck_after_wait_at(&scope, 1, now + 31), FetchPlan::UseCached);
        results.push(*client.get_cached_query(&scope, 1).unwrap());
    }
    assert_eq!(results, vec![2; 10]);
    assert_eq!(calls, 1);
}

#[test]
fn update_to_none_removes_entry() {
    let scope = QueryScope::plain(3);
    let mut client: QueryClient<u64> = QueryClient::new();
    client.set_query(&scope, 9, 81, 0);
    assert!(client.query_exists(&scope, 9));
    let seen = client.update_query(&scope, 9, |opt: Option<u64>| (None, opt), 10);
    assert_eq!(seen, Some(81));
    assert!(!client.query_exists(&scope, 9));
    assert_eq!(client.get_cached_query(&scope, 9), None);
}

#[test]
fn update_modifies_and_creates() {
    let scope = QueryScope::plain(3);
    let mut client: QueryClient<u64> = QueryClient::new();
    let r = client.update_query(&scope, 1, |opt: Option<u64>| (opt.map(|v| v + 1), 5u8), 0);
    assert_eq!(r, 5);
    assert!(!client.query_exists(&scope, 1));
    client.update_query(&scope, 1, |_opt: Option<u64>| (Some(10), ()), 0);
    assert_eq!(client.get_cached_query(&scope, 1), Some(&10));
    client.update_query(&scope, 1, |opt: Option<u64>| (opt.map(|v| v + 1), ()), 0);
    assert_eq!(client.get_cached_query(&scope, 1), Some(&11));
}

#[test]
fn set_then_get_returns_value() {
    let scope = QueryScope::plain(1);
    let mut client: QueryClient<String> = QueryClient::new();
    client.set_query(&scope, 4, "first".to_string(), 0);
    assert_eq!(client.get_cached_query(&scope, 4), Some(&"first".to_string()));
    client.set_query(&scope, 4, "second".to_string(), 10);
    assert_eq!(client.get_cached_query(&scope, 4), Some(&"second".to_string()));
    assert_eq!(client.get_cached_query(&scope, 5), None);
    assert_eq!(client.get_cached_query(&QueryScope::plain(2), 4), None);
}

#[test]
fn staleness_follows_stale_time() {
    let scope = ten_seconds_scope();
    let mut client: QueryClient<u64> = QueryClient::new();
    client.set_query(&scope, 1, 2, 1_000);
    assert_eq!(client.fetch_cached(&scope, 1, 1_000), Some(&2));
    assert_eq!(client.fetch_cached(&scope, 1, 11_000), Some(&2));
    assert_eq!(client.fetch_cached(&scope, 1, 11_001), None);
    assert_eq!(client.recheck_after_wait_at(&scope, 1, 11_000), FetchPlan::UseCached);
    let buster = match client.recheck_after_wait_at(&scope, 1, 11_001) {
        FetchPlan::ReplaceStale { buster } => buster,
        other => panic!("unexpected plan {other:?}"),
    };
    assert_eq!(client.recheck_after_wait_at(&scope, 2, 0), FetchPlan::Fetch);
    let q = client.scope_lookup.with_cached_query(1, 1).unwrap();
    assert!(!q.stale(11_000));
    assert!(q.stale(11_001));
    assert_eq!(q.buster, buster);
}

#[test]
fn default_options_apply_without_configuration() {
    let scope = QueryScope::plain(1);
    let mut client: QueryClient<u64> = QueryClient::new();
    client.set_query(&scope, 1, 2, 0);
    let effects = client.take_effects();
    assert_eq!(client.fetch_cached(&scope, 1, DEFAULT_STALE_TIME), Some(&2));
    assert_eq!(client.fetch_cached(&scope, 1, DEFAULT_STALE_TIME + 1), None);
    assert_eq!(effects.len(), 1);
    match effects[0] {
        Effect::ArmGc { type_id, key, delay, .. } => {
            assert_eq!((type_id, key, delay), (1, 1, DEFAULT_GC_TIME));
        }
        other => panic!("unexpected effect {other:?}"),
    }
}

#[test]
fn idle_entry_is_evicted_by_its_timer() {
    let scope = ten_seconds_scope();
    let mut client: QueryClient<u64> = QueryClient::new();
    client.set_query(&scope, 1, 2, 0);
    let handle = match client.take_effects()[..] {
        [Effect::ArmGc { handle, type_id: 1, key: 1, delay: 300_000 }] => handle,
        ref other => panic!("unexpected effects {other:?}"),
    };
    assert!(client.gc_query(1, 1, handle));
    assert_eq!(client.get_cached_query(&scope, 1), None);
    assert!(!client.gc_query(1, 1, handle));
}

#[test]
fn replacing_cancels_the_old_timer() {
    let scope = ten_seconds_scope();
    let mut client: QueryClient<u64> = QueryClient::new();
    client.set_query(&scope, 1, 2, 0);
    let first = match client.take_effects()[..] {
        [Effect::ArmGc { handle, .. }] => handle,
        ref other => panic!("unexpected effects {other:?}"),
    };
    client.set_query(&scope, 1, 3, 100_000);
    let effects = client.take_effects();
    assert_eq!(effects[0], Effect::CancelGc { handle: first });
    let second = match effects[1] {
        Effect::ArmGc { handle, delay: 300_000, .. } => handle,
        other => panic!("unexpected effect {other:?}"),
    };
    assert!(matches!(effects[2], Effect::Notify { .. }));
    assert_ne!(first, second);
    assert!(!client.gc_query(1, 1, first));
    assert!(client.query_exists(&scope, 1));
    assert!(client.gc_query(1, 1, second));
    assert!(!client.query_exists(&scope, 1));
}

#[test]
fn no_timers_without_host_timers_or_with_long_gc() {
    let scope = QueryScope::plain(1);
    let mut server: QueryClient<u64> = QueryClient::new_without_timers(QueryOptions::new());
    server.set_query(&scope, 1, 2, 0);
    assert!(server.take_effects().is_empty());

    let forever = QueryOptions::new().set_gc_time(u64::MAX).unwrap();
    let mut client: QueryClient<u64> = QueryClient::new_with_options(forever);
    client.set_query(&scope, 1, 2, 0);
    assert!(client.take_effects().is_empty());
}

#[test]
fn invalidation_keeps_values_and_notifies() {
    let a = QueryScope::plain(1);
    let b = QueryScope::plain(2);
    let mut client: QueryClient<u64> = QueryClient::new_without_timers(QueryOptions::new());
    client.set_query(&a, 1, 10, 0);
    client.set_query(&a, 2, 20, 0);
    client.set_query(&b, 1, 30, 0);
    client.take_effects();

    let found = client.invalidate_queries(&a, &vec![2, 5, 1, 2]);
    assert_eq!(found, vec![2, 1, 2]);
    assert_eq!(client.take_effects().len(), 3);
    assert_eq!(client.fetch_cached(&a, 1, 0), None);
    assert_eq!(client.get_cached_query(&a, 1), Some(&10));
    assert_eq!(client.fetch_cached(&b, 1, 0), Some(&30));

    client.invalidate_query_type(&b);
    assert_eq!(client.fetch_cached(&b, 1, 0), None);
    assert_eq!(client.get_cached_query(&b, 1), Some(&30));
    assert_eq!(client.take_effects().len(), 1);

    client.set_query(&a, 3, 40, 0);
    client.take_effects();
    client.invalidate_all_queries();
    assert_eq!(client.take_effects().len(), 4);
    assert_eq!(client.fetch_cached(&a, 3, 0), None);
    assert!(!client.invalidate_query(&a, 99));
}

#[test]
fn stale_refetch_reuses_and_notifies_old_token() {
    let scope = QueryScope::plain(1);
    let mut client: QueryClient<u64> = QueryClient::new_without_timers(QueryOptions::new());
    client.set_query(&scope, 1, 2, 0);
    assert!(client.invalidate_query(&scope, 1));
    client.take_effects();
    let buster = match client.recheck_after_wait_at(&scope, 1, 0) {
        FetchPlan::ReplaceStale { buster } => buster,
        other => panic!("unexpected plan {other:?}"),
    };
    client.store_fetched_at(&scope, 1, 3, None, Some(buster), 5);
    assert_eq!(client.fetch_cached(&scope, 1, 5), Some(&3));
    let effects = client.take_effects();
    assert!(matches!(effects[..], [Effect::Notify { token, .. }] if token == buster));
    assert_eq!(client.scope_lookup.with_cached_query(1, 1).unwrap().buster, buster);
}

#[test]
fn supplied_token_is_used_for_new_entry() {
    let scope = QueryScope::plain(1);
    let mut client: QueryClient<u64> = QueryClient::new_without_timers(QueryOptions::new());
    let token = client.new_buster();
    client.store_fetched_at(&scope, 8, 16, Some(token), None, 0);
    assert_eq!(client.scope_lookup.with_cached_query(1, 8).unwrap().buster, token);
    assert!(client.take_effects().is_empty());
}

#[test]
fn fetch_lock_is_made_once_per_key() {
    let scope = QueryScope::plain(1);
    let mut client: QueryClient<u64> = QueryClient::new();
    let a = client.fetcher_mutex(&scope, 1);
    let b = client.fetcher_mutex(&scope, 2);
    assert_ne!(a, b);
    assert_eq!(client.fetcher_mutex(&scope, 1), a);
    assert_eq!(client.fetcher_mutex(&QueryScope::plain(2), 1) == a, false);
}

#[test]
fn prefetch_only_where_absent() {
    let scope = QueryScope::plain(1);
    let mut client: QueryClient<u64> = QueryClient::new();
    assert!(client.needs_prefetch(&scope, 1));
    client.set_query(&scope, 1, 2, 0);
    assert!(!client.needs_prefetch(&scope, 1));
    client.invalidate_query(&scope, 1);
    assert!(!client.needs_prefetch(&scope, 1));
}

#[test]
fn options_resolve_and_reject_inverted_times() {
    let o = QueryOptions::new();
    assert_eq!((o.stale_time(), o.gc_time()), (10_000, 300_000));
    assert_eq!(
        QueryOptions::new().set_gc_time(5).unwrap().set_stale_time(6),
        Err(ConfigError::StaleAfterGc { stale_time: 6, gc_time: 5 })
    );
    assert_eq!(
        QueryOptions::new().set_stale_time(6).unwrap().set_gc_time(5),
        Err(ConfigError::StaleAfterGc { stale_time: 6, gc_time: 5 })
    );
    let both = QueryOptions::new().set_stale_time(5).unwrap().set_gc_time(5).unwrap();
    assert_eq!((both.stale_time(), both.gc_time()), (5, 5));
}

#[test]
fn scope_options_override_client_options() {
    let base = QueryOptions::new().set_stale_time(1).unwrap().set_gc_time(2).unwrap();
    let scope = QueryOptions::new().set_gc_time(50).unwrap();
    let c = leptos_cache::options_combine(base, Some(scope));
    assert_eq!((c.stale_time(), c.gc_time()), (1, 50));
    assert_eq!(leptos_cache::options_combine(base, None), base);
    let d = leptos_cache::options_combine(QueryOptions::new(), Some(QueryOptions::new()));
    assert_eq!((d.stale_time(), d.gc_time()), (DEFAULT_STALE_TIME, DEFAULT_GC_TIME));
}

#[test]
fn rolling_counter_wraps() {
    let mut c = 5u64;
    assert_eq!(leptos_cache::random_u64_rolling(&mut c), 5);
    assert_eq!(c, 6);
    let mut top = u64::MAX;
    assert_eq!(leptos_cache::random_u64_rolling(&mut top), u64::MAX);
    assert_eq!(top, 0);
}

#[test]
fn reading_restarts_the_eviction_timer() {
    let scope = ten_seconds_scope();
    let mut client: QueryClient<u64> = QueryClient::new();
    client.set_query(&scope, 1, 2, 0);
    let first = match client.take_effects()[..] {
        [Effect::ArmGc { handle, .. }] => handle,
        ref other => panic!("unexpected effects {other:?}"),
    };
    assert_eq!(client.get_cached_query(&scope, 1), Some(&2));
    let second = match client.take_effects()[..] {
        [Effect::CancelGc { handle: c }, Effect::ArmGc { handle, type_id: 1, key: 1, delay: 300_000 }] if c == first => handle,
        ref other => panic!("unexpected effects {other:?}"),
    };
    assert!(!client.gc_query(1, 1, first));
    assert!(client.query_exists(&scope, 1));
    // A fetch served from a fresh entry is a read too.
    assert_eq!(client.fetch_cached(&scope, 1, 5_000), Some(&2));
    let third = match client.take_effects()[..] {
        [Effect::CancelGc { handle: c }, Effect::ArmGc { handle, .. }] if c == second => handle,
        ref other => panic!("unexpected effects {other:?}"),
    };
    assert!(!client.gc_query(1, 1, second));
    assert!(client.gc_query(1, 1, third));
    assert_eq!(client.get_cached_query(&scope, 1), None);
    assert!(client.take_effects().is_empty());
}

#[test]
fn stale_fetch_does_not_restart_the_timer() {
    let scope = ten_seconds_scope();
    let mut client: QueryClient<u64> = QueryClient::new();
    client.set_query(&scope, 1, 2, 0);
    client.take_effects();
    assert_eq!(client.fetch_cached(&scope, 1, 20_000), None);
    assert!(client.take_effects().is_empty());
}

#[test]
fn locks_of_different_keys_differ() {
    let mut client: QueryClient<u64> = QueryClient::new();
    let mut seen = Vec::new();
    for t in 0..3 {
        for k in 0..4 {
            seen.push(client.fetcher_mutex(&QueryScope::plain(t), k));
        }
    }
    let mut sorted = seen.clone();
    sorted.sort();
    sorted.dedup();
    assert_eq!(sorted.len(), 12);
    assert_eq!(client.fetcher_mutex(&QueryScope::plain(2), 3), seen[11]);
    assert!(client.take_effects().is_empty());
}
