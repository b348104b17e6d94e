use std::collections::HashSet;
use wasi_abi::{
    claim_after, current_caller_id, next_count, CallerIdCache, CallerIdSeed, Claim, WasiCallingId,
};

#[test]
fn raw_and_inc() {
    let mut id = WasiCallingId(7);
    assert_eq!(id.raw(), 7);
    let next = id.inc();
    assert_eq!(next, WasiCallingId(8));
    assert_eq!(id.raw(), 8);
}

#[test]
fn conversions_keep_the_value() {
    let id: WasiCallingId = 42u32.into();
    assert_eq!(id, WasiCallingId(42));
    let back: u32 = id.into();
    assert_eq!(back, 42);
}

#[test]
fn same_thread_gets_the_same_id_twice() {
    let seed = CallerIdSeed::new();
    let mut cache = CallerIdCache::new();
    let first = current_caller_id(&mut cache, &seed).unwrap();
    let second = current_caller_id(&mut cache, &seed).unwrap();
    assert_eq!(first, second);
    assert_eq!(first, WasiCallingId(1));
    assert_eq!(cache.id, 1);
}

#[test]
fn distinct_threads_get_distinct_ids() {
    let seed = CallerIdSeed::new();
    let mut seen: HashSet<u32> = HashSet::new();
    let mut caches: Vec<CallerIdCache> = (0..16).map(|_| CallerIdCache::new()).collect();
    for cache in caches.iter_mut() {
        let id = current_caller_id(cache, &seed).unwrap().raw();
        assert!(id >= 1);
        assert!(seen.insert(id));
    }
    for cache in caches.iter_mut() {
        let again = current_caller_id(cache, &seed).unwrap().raw();
        assert!(seen.contains(&again));
    }
    assert_eq!(seen.len(), 16);
}

#[test]
fn seed_issues_in_order_from_one() {
    let seed = CallerIdSeed::new();
    assert_eq!(seed.draw(), Some(WasiCallingId(1)));
    assert_eq!(seed.draw(), Some(WasiCallingId(2)));
    assert_eq!(seed.draw(), Some(WasiCallingId(3)));
}

#[test]
fn cached_id_is_answered_without_drawing() {
    let seed = CallerIdSeed::new();
    let mut cache = CallerIdCache { id: 9 };
    assert_eq!(current_caller_id(&mut cache, &seed), Some(WasiCallingId(9)));
    assert_eq!(seed.draw(), Some(WasiCallingId(1)));
}

#[test]
fn next_count_steps_and_stops_at_the_last() {
    assert_eq!(next_count(0), Some(1));
    assert_eq!(next_count(41), Some(42));
    assert_eq!(next_count(u32::MAX - 1), Some(u32::MAX));
    assert_eq!(next_count(u32::MAX), None);
}

#[test]
fn claim_after_each_exchange_outcome() {
    assert_eq!(claim_after(0, Ok(0)), Claim::Issued(WasiCallingId(1)));
    assert_eq!(claim_after(6, Ok(6)), Claim::Issued(WasiCallingId(7)));
    assert_eq!(claim_after(u32::MAX - 1, Ok(u32::MAX - 1)), Claim::Issued(WasiCallingId(u32::MAX)));
    assert_eq!(claim_after(6, Err(9)), Claim::Retry(9));
    assert_eq!(claim_after(6, Err(6)), Claim::Exhausted);
    assert_eq!(claim_after(6, Err(2)), Claim::Exhausted);
}
