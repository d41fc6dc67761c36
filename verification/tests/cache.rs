use human_in_the_loop::cache::Lookup;
use human_in_the_loop::cache::ThreadCache;

#[test]
fn new_cache_holds_no_thread() {
    let cache = ThreadCache::new();
    assert_eq!(cache.get(), None);
}

#[test]
fn callers_that_come_together_create_once() {
    let mut cache = ThreadCache::new();
    let told: Vec<Lookup> = (0..6).map(|_| cache.acquire()).collect();
    assert_eq!(
        told,
        vec![Lookup::Create, Lookup::Wait, Lookup::Wait, Lookup::Wait, Lookup::Wait, Lookup::Wait]
    );
    assert_eq!(told.iter().filter(|lookup| **lookup == Lookup::Create).count(), 1);
    assert_eq!(cache.get(), None);
}

#[test]
fn every_caller_is_handed_the_created_thread() {
    let mut cache = ThreadCache::new();
    assert_eq!(cache.acquire(), Lookup::Create);
    assert_eq!(cache.acquire(), Lookup::Wait);
    assert_eq!(cache.acquire(), Lookup::Wait);
    assert_eq!(cache.created(77), 77);
    assert_eq!(cache.created(77), 77);
    assert_eq!(cache.created(77), 77);
    assert_eq!(cache.get(), Some(77));
    assert_eq!(cache.acquire(), Lookup::Hit(77));
}

#[test]
fn thread_recorded_first_is_kept() {
    let mut cache = ThreadCache::new();
    assert_eq!(cache.acquire(), Lookup::Create);
    assert_eq!(cache.created(1), 1);
    assert_eq!(cache.created(2), 1);
    assert_eq!(cache.get(), Some(1));
}

#[test]
fn existing_thread_is_used_without_creation() {
    let mut cache = ThreadCache::new();
    cache.acquire();
    cache.created(9);
    for _ in 0..4 {
        assert_eq!(cache.acquire(), Lookup::Hit(9));
    }
}

#[test]
fn failed_creation_is_not_kept() {
    let mut cache = ThreadCache::new();
    assert_eq!(cache.acquire(), Lookup::Create);
    assert_eq!(cache.acquire(), Lookup::Wait);
    cache.failed();
    assert_eq!(cache.get(), None);
    assert_eq!(cache.acquire(), Lookup::Create);
    assert_eq!(cache.created(12), 12);
    assert_eq!(cache.acquire(), Lookup::Hit(12));
}

#[test]
fn failure_does_not_forget_a_thread() {
    let mut cache = ThreadCache::new();
    cache.acquire();
    cache.created(5);
    cache.failed();
    assert_eq!(cache.get(), Some(5));
}

#[test]
fn failure_on_an_empty_cache_changes_nothing() {
    let mut cache = ThreadCache::new();
    cache.failed();
    assert_eq!(cache.get(), None);
    assert_eq!(cache.acquire(), Lookup::Create);
}
