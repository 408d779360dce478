use std::sync::Arc;

use config_store::{ConfigStore, SharedSnapshot, StoreError, Unrestricted};

#[derive(Debug, PartialEq, Eq)]
struct Config {
    version: u64,
}

fn snapshot(version: u64) -> SharedSnapshot<Config> {
    Arc::new(Config { version })
}

#[test]
fn load_returns_the_initial_snapshot() {
    let first = snapshot(1);
    let store = ConfigStore::new(Arc::clone(&first));
    let seen = store.load();
    assert_eq!(*seen, Config { version: 1 });
    assert!(Arc::ptr_eq(&seen, &first));
}

#[test]
fn store_then_load_keeps_earlier_handle() {
    let store = ConfigStore::new(snapshot(1));
    let before = store.load();
    assert_eq!(*before, Config { version: 1 });
    store.store(snapshot(2));
    let after = store.load();
    assert_eq!(*after, Config { version: 2 });
    assert_eq!(*before, Config { version: 1 });
}

#[test]
fn load_returns_only_published_snapshots() {
    let published: Vec<SharedSnapshot<Config>> = (0..10).map(snapshot).collect();
    let store = ConfigStore::new(Arc::clone(&published[0]));
    for next in 1..published.len() {
        let seen = store.load();
        assert!(published.iter().any(|one| Arc::ptr_eq(one, &seen)));
        store.store(Arc::clone(&published[next]));
        let seen = store.load();
        assert!(published.iter().any(|one| Arc::ptr_eq(one, &seen)));
    }
}

#[test]
fn load_after_store_is_never_earlier() {
    let store = ConfigStore::new(snapshot(0));
    for version in 1..50 {
        store.store(snapshot(version));
        assert_eq!(store.load().version, version);
        assert_eq!(store.load().version, version);
    }
}

#[test]
fn last_store_wins() {
    let store = ConfigStore::new(snapshot(1));
    store.store(snapshot(2));
    store.store(snapshot(3));
    assert_eq!(*store.load(), Config { version: 3 });
}

#[test]
fn handles_survive_later_stores() {
    let store = ConfigStore::new(snapshot(1));
    let mut held = vec![store.load()];
    for version in 2..20 {
        store.store(snapshot(version));
        held.push(store.load());
    }
    for (index, handle) in held.iter().enumerate() {
        assert_eq!(handle.version, index as u64 + 1);
    }
}

#[test]
fn replaced_snapshot_stays_alive_only_through_its_handles() {
    let first = snapshot(1);
    let store = ConfigStore::new(Arc::clone(&first));
    assert_eq!(Arc::strong_count(&first), 2);
    store.store(snapshot(2));
    assert_eq!(Arc::strong_count(&first), 1);
    assert_eq!(first.version, 1);
}

#[test]
fn try_new_without_snapshot_is_not_initialized() {
    let outcome = ConfigStore::<Config>::try_new(None);
    assert_eq!(outcome.err(), Some(StoreError::NotInitialized));
}

#[test]
fn try_new_with_snapshot_gives_a_store() {
    let outcome = ConfigStore::try_new(Some(snapshot(7)));
    match outcome {
        Ok(store) => assert_eq!(*store.load(), Config { version: 7 }),
        Err(reason) => panic!("no store: {:?}", reason),
    }
}

#[test]
fn interleaved_loads_with_one_store_midway() {
    let store = ConfigStore::new(snapshot(1));
    let mut last_seen = vec![1u64; 100];
    let mut loads = 0usize;
    for round in 0..1000 {
        if round == 500 {
            store.store(snapshot(2));
        }
        for caller in 0..100 {
            let seen = store.load();
            assert!(seen.version == 1 || seen.version == 2);
            assert!(seen.version >= last_seen[caller]);
            assert_eq!(seen.version, if round < 500 { 1 } else { 2 });
            last_seen[caller] = seen.version;
            loads += 1;
        }
    }
    assert_eq!(loads, 100_000);
    assert!(last_seen.iter().all(|version| *version == 2));
}

#[test]
fn with_rule_gives_a_store_that_loads_and_stores() {
    let store = ConfigStore::<Config, Unrestricted>::with_rule(snapshot(4));
    assert_eq!(store.load().version, 4);
    store.store(snapshot(5));
    assert_eq!(store.load().version, 5);
}

fn shared_between_threads<S: Send + Sync>(_: &S) -> bool {
    true
}

#[test]
fn store_may_be_shared_between_threads() {
    let store = ConfigStore::new(snapshot(1));
    assert!(shared_between_threads(&store));
    assert!(shared_between_threads(&store.load()));
}
