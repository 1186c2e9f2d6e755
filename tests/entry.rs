use leptos_cache::Effect;
use leptos_cache::EffectLog;
use leptos_cache::GcHandle;
use leptos_cache::GcTarget;
use leptos_cache::GcValue;
use leptos_cache::Query;
use leptos_cache::QueryOptions;

#[test]
fn new_entry_arms_timer_for_its_gc_time() {
    let mut log = EffectLog::new();
    let scope = QueryOptions::new().set_gc_time(60_000).unwrap();
    let q = Query::new(QueryOptions::new(), Some(scope), true, 3, 4, "v", 77, 1_000, &mut log);
    assert_eq!(*q.value_maybe_stale.value(), "v");
    assert_eq!(q.updated_at, Some(1_000));
    assert_eq!(q.buster, 77);
    assert_eq!(q.gc_target, Some(GcTarget { type_id: 3, key: 4 }));
    assert_eq!(q.value_maybe_stale.gc_handle, GcHandle::Armed { handle: 0 });
    assert_eq!(log.pending, vec![Effect::ArmGc { handle: 0, type_id: 3, key: 4, delay: 60_000 }]);
    assert_eq!(log.next_id, 1);
}

#[test]
fn invalidated_entry_is_stale_and_keeps_value() {
    let mut log = EffectLog::new();
    let mut q = Query::new(QueryOptions::new(), None, false, 1, 1, 5u32, 0, 0, &mut log);
    assert!(log.pending.is_empty());
    assert_eq!(q.value_maybe_stale.gc_handle, GcHandle::Inert);
    assert!(!q.stale(0));
    q.invalidate();
    assert!(q.stale(u64::MAX));
    assert!(q.stale(0));
    assert_eq!(*q.value_maybe_stale.value(), 5);
}

#[test]
fn set_value_restamps_and_rearms() {
    let mut log = EffectLog::new();
    let mut q = Query::new(QueryOptions::new(), None, true, 1, 2, 5u32, 9, 0, &mut log);
    q.invalidate();
    q.set_value(6, 50, &mut log);
    assert_eq!(*q.value_maybe_stale.value(), 6);
    assert_eq!(q.updated_at, Some(50));
    assert_eq!(q.buster, 9);
    assert_eq!(
        log.take(),
        vec![
            Effect::ArmGc { handle: 0, type_id: 1, key: 2, delay: 300_000 },
            Effect::CancelGc { handle: 0 },
            Effect::ArmGc { handle: 1, type_id: 1, key: 2, delay: 300_000 },
        ]
    );
    assert!(log.pending.is_empty());
}

#[test]
fn taking_a_value_cancels_its_timer() {
    let mut log = EffectLog::new();
    let handle = GcHandle::new(Some(GcTarget { type_id: 1, key: 1 }), 10, &mut log);
    let v = GcValue::new(String::from("x"), handle);
    assert_eq!(v.into_value(&mut log), "x");
    assert_eq!(log.pending[1], Effect::CancelGc { handle: 0 });
    let mut inert = GcHandle::new(None, 10, &mut log);
    inert.cancel(&mut log);
    inert.cancel(&mut log);
    assert_eq!(inert, GcHandle::Inert);
    assert_eq!(log.pending.len(), 2);
}

#[test]
fn notify_mints_versions() {
    let mut log = EffectLog::new();
    log.notify(4);
    log.notify(4);
    assert_eq!(
        log.take(),
        vec![Effect::Notify { token: 4, version: 0 }, Effect::Notify { token: 4, version: 1 }]
    );
    assert_eq!(log.mint(), 2);
}
