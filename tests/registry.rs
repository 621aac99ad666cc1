use bot_rust::registry::SubscriptionRegistry;

#[test]
fn subscribe_then_snapshot_contains_id() {
    let mut r = SubscriptionRegistry::new();
    r.subscribe(42);
    assert!(r.contains(42));
    assert_eq!(r.snapshot(), vec![42]);
}

#[test]
fn subscribe_then_unsubscribe_removes_id() {
    let mut r = SubscriptionRegistry::new();
    r.subscribe(42);
    r.unsubscribe(42);
    assert!(!r.contains(42));
    assert!(r.snapshot().is_empty());
}

#[test]
fn unsubscribe_non_member_is_noop() {
    let mut r = SubscriptionRegistry::new();
    r.subscribe(1);
    r.unsubscribe(2);
    assert_eq!(r.snapshot(), vec![1]);
    assert_eq!(r.len(), 1);
}

#[test]
fn subscribe_twice_keeps_one_entry() {
    let mut r = SubscriptionRegistry::new();
    r.subscribe(7);
    r.subscribe(7);
    assert_eq!(r.len(), 1);
}

#[test]
fn snapshot_is_a_copy() {
    let mut r = SubscriptionRegistry::new();
    for id in [1i64, 2, 3] {
        r.subscribe(id);
    }
    let mut snap = r.snapshot();
    r.unsubscribe(2);
    r.subscribe(4);
    snap.sort();
    assert_eq!(snap, vec![1, 2, 3]);
    let mut now = r.snapshot();
    now.sort();
    assert_eq!(now, vec![1, 3, 4]);
}

#[test]
fn interleaved_calls_reconcile_with_net_effect() {
    let shared = std::sync::Arc::new(std::sync::Mutex::new(SubscriptionRegistry::new()));
    let mut expected = std::collections::BTreeSet::new();
    for caller in 0..16i64 {
        for step in 0..50i64 {
            let id = (caller * 7 + step) % 40;
            let mut guard = shared.lock().unwrap();
            if step % 3 == 0 {
                guard.unsubscribe(id);
                expected.remove(&id);
            } else {
                guard.subscribe(id);
                expected.insert(id);
            }
        }
    }
    let mut got = shared.lock().unwrap().snapshot();
    got.sort();
    assert_eq!(got, expected.into_iter().collect::<Vec<_>>());
}
