use std::sync::atomic::AtomicUsize;
use std::sync::atomic::Ordering;
use std::sync::Arc;
use std::sync::Barrier;

use synchronized::anonymous::sync;
use synchronized::anonymous::sync_with;
use synchronized::beh::std_mutex::recover_try_lock;
use synchronized::beh::tokio_mutex::try_lock_outcome;
use synchronized::point::same_name;
use synchronized::point::SyncPoints;
use synchronized::sync_point::SyncPoint;
use synchronized::sync_point::SyncPointBeh;
use synchronized::sync_point::SyncPointName;
use synchronized::sync_point::UnknownName;
use synchronized::CURRENT_DEF_BEH;

fn runtime() -> tokio::runtime::Runtime {
    tokio::runtime::Builder::new_multi_thread()
        .worker_threads(2)
        .max_blocking_threads(16)
        .build()
        .unwrap()
}

#[test]
fn anonymous_block_returns_its_value() {
    let r = sync(|| {
        let a = 1 + 2;
        assert!(a == 3);
        a
    });
    assert_eq!(r, 3);
}

#[test]
fn anonymous_block_with_slot_starts_from_init() {
    let r = sync_with(41usize, |count: &mut usize| {
        *count += 1;
        *count
    });
    assert_eq!(r, 42);
}

#[test]
fn nested_anonymous_blocks_do_not_block() {
    let r = sync(|| sync(|| sync(|| 7)));
    assert_eq!(r, 7);
}

#[test]
fn concurrent_anonymous_blocks_run_together() {
    // Each block waits inside for the other one: were the two serialized,
    // neither would ever leave.
    let rt = runtime();
    let barrier = Arc::new(Barrier::new(2));
    let mut handles = Vec::new();
    for i in 0..2usize {
        let barrier = barrier.clone();
        handles.push(rt.spawn_blocking(move || {
            sync(move || {
                barrier.wait();
                i
            })
        }));
    }
    let mut sum = 0;
    for h in handles {
        sum += rt.block_on(h).unwrap();
    }
    assert_eq!(sum, 1);
}

#[test]
fn named_point_counts_concurrent_increments() {
    let rt = runtime();
    let mut points: SyncPoints<std::sync::Mutex<usize>> = SyncPoints::new();
    points.declare("count", || std::sync::Mutex::new(0usize));
    let points = Arc::new(points);
    let mut handles = Vec::new();
    for _ in 0..5 {
        let points = points.clone();
        handles.push(rt.spawn_blocking(move || {
            points.sync_by_name("count", |count: &mut usize| {
                *count += 1;
            })
        }));
    }
    for h in handles {
        assert_eq!(rt.block_on(h).unwrap(), Some(()));
    }
    assert_eq!(points.sync_by_name("count", |count: &mut usize| *count), Some(5));
}

#[test]
fn at_most_one_holder_at_a_time() {
    let rt = runtime();
    let point = Arc::new(SyncPoint::<parking_lot::Mutex<usize>>::new(parking_lot::Mutex::new(0)));
    let inside = Arc::new(AtomicUsize::new(0));
    let n = 8;
    let mut handles = Vec::new();
    for _ in 0..n {
        let point = point.clone();
        let inside = inside.clone();
        handles.push(rt.spawn_blocking(move || {
            for _ in 0..50 {
                let lock = point.new_lock();
                assert_eq!(inside.fetch_add(1, Ordering::SeqCst), 0);
                assert!(point.is_lock());
                for _ in 0..100 {
                    std::hint::spin_loop();
                }
                assert_eq!(inside.fetch_sub(1, Ordering::SeqCst), 1);
                point.unlock(lock);
            }
        }));
    }
    for h in handles {
        rt.block_on(h).unwrap();
    }
    assert!(!point.is_lock());
    assert_eq!(point.sync_mut(|v: &mut usize| *v), 0);
}

#[test]
fn try_lock_on_held_point_returns_none() {
    let point: SyncPoint<parking_lot::Mutex<u8>> = SyncPoint::new(parking_lot::Mutex::new(0));
    assert!(!point.is_lock());
    let lock = point.try_lock();
    assert!(lock.is_some());
    assert!(point.is_lock());
    assert!(point.try_lock().is_none());
    point.unlock(lock.unwrap());
    assert!(!point.is_lock());

    let point: SyncPoint<std::sync::Mutex<u8>> = SyncPoint::new(std::sync::Mutex::new(0));
    let lock = point.try_lock();
    assert!(lock.is_some());
    assert!(point.try_lock().is_none());
    point.unlock(lock.unwrap());
    assert!(point.try_lock().is_some());

    let point: SyncPoint<tokio::sync::Mutex<u8>> = SyncPoint::new(tokio::sync::Mutex::new(0));
    let lock = point.try_lock();
    assert!(lock.is_some());
    assert!(point.try_lock().is_none());
    point.unlock(lock.unwrap());
    assert!(point.try_lock().is_some());
}

#[test]
fn acquire_after_release_succeeds() {
    let point: SyncPoint<parking_lot::Mutex<u32>> = SyncPoint::new(parking_lot::Mutex::new(1));
    let lock = point.new_lock();
    point.unlock(lock);
    let lock = point.new_lock();
    assert!(point.is_lock());
    point.unlock(lock);

    let point: SyncPoint<std::sync::Mutex<u32>> = SyncPoint::new(std::sync::Mutex::new(1));
    let lock = point.new_lock();
    point.unlock(lock);
    let lock = point.new_lock();
    point.unlock(lock);
    assert_eq!(point.sync_mut(|v: &mut u32| *v), 1);
}

#[test]
fn payload_persists_between_holders() {
    let point: SyncPoint<std::sync::Mutex<Vec<u8>>> = SyncPoint::new(std::sync::Mutex::new(Vec::new()));
    point.sync_mut(|v: &mut Vec<u8>| v.push(1));
    point.sync_mut(|v: &mut Vec<u8>| v.push(2));
    assert_eq!(point.sync_mut(|v: &mut Vec<u8>| v.clone()), vec![1, 2]);
}

#[test]
fn poisoned_point_recovers_its_payload() {
    let rt = runtime();
    let point = Arc::new(SyncPoint::<std::sync::Mutex<u32>>::new(std::sync::Mutex::new(0)));
    let p = point.clone();
    let res = rt.block_on(rt.spawn_blocking(move || {
        p.sync_mut(|v: &mut u32| {
            *v = 9;
            panic!("holder fails");
        })
    }));
    assert!(res.is_err());
    assert!(point.get_backend().is_poisoned());
    assert_eq!(point.sync_mut(|v: &mut u32| *v), 9);
    let lock = point.try_lock();
    assert!(lock.is_some());
    point.unlock(lock.unwrap());
}

#[test]
fn try_lock_outcomes_are_classified() {
    let m = std::sync::Mutex::new(3u8);
    assert!(recover_try_lock(m.try_lock()).is_some());
    let held = m.lock().unwrap();
    assert!(recover_try_lock(m.try_lock()).is_none());
    drop(held);

    let t = tokio::sync::Mutex::new(3u8);
    let held = try_lock_outcome(t.try_lock());
    assert!(held.is_some());
    assert!(try_lock_outcome(t.try_lock()).is_none());
}

#[test]
fn point_names() {
    let point: SyncPoint<std::sync::Mutex<()>> = SyncPoint::new(std::sync::Mutex::new(()));
    assert_eq!(point.get_sync_point_name(), "<empty>");
    assert_eq!(SyncPoint::<std::sync::Mutex<()>, ()>::get_name(), "<empty>");
    let named: SyncPoint<std::sync::Mutex<()>, UnknownName> = SyncPoint::new(std::sync::Mutex::new(()));
    assert_eq!(named.get_sync_point_name(), "<unknown>");
    assert_eq!(UnknownName::get_name(), "<unknown>");
    assert_eq!(CURRENT_DEF_BEH, "std");
}

#[test]
fn declaring_a_name_twice_gives_the_same_point() {
    let mut points: SyncPoints<std::sync::Mutex<usize>> = SyncPoints::new();
    assert_eq!(points.len(), 0);
    let a = points.declare("alpha", || std::sync::Mutex::new(10));
    let b = points.declare("beta", || std::sync::Mutex::new(20));
    let mut called = false;
    let a2 = points.declare("alpha", || {
        called = true;
        std::sync::Mutex::new(99)
    });
    assert!(!called);
    assert_eq!(a, 0);
    assert_eq!(b, 1);
    assert_eq!(a2, a);
    assert_eq!(points.len(), 2);
    assert_eq!(points.name(1), "beta");
    assert_eq!(points.find("beta"), Some(1));
    assert_eq!(points.find("gamma"), None);
    assert_eq!(points.sync_by_name("alpha", |v: &mut usize| *v), Some(10));
    assert_eq!(points.sync_by_name("gamma", |v: &mut usize| *v), None);
    assert!(points.get("gamma").is_none());
    assert!(points.get("beta").is_some());
    assert_eq!(points.point(1).sync_mut(|v: &mut usize| *v), 20);
}

#[test]
fn names_compare_by_characters() {
    assert!(same_name("", ""));
    assert!(same_name("point", "point"));
    assert!(!same_name("point", "points"));
    assert!(!same_name("point", "paint"));
    assert!(same_name("é✓", "é✓"));
}

struct Journal;

impl SyncPointName for Journal {
    const NAME: &'static str = "journal";
}

#[test]
fn custom_point_name() {
    let point: SyncPoint<parking_lot::Mutex<u8>, Journal> = SyncPoint::new(parking_lot::Mutex::new(0));
    assert_eq!(point.get_sync_point_name(), "journal");
    assert_eq!(SyncPoint::<parking_lot::Mutex<u8>, Journal>::get_name(), "journal");
}

#[test]
fn feature_constants() {
    assert!(synchronized::GET_POINT_NAME);
    assert!(synchronized::NAMED_POINTS);
    assert!(synchronized::ASYNC_BACKEND);
}

#[test]
fn handles_reach_the_payload_of_their_point() {
    let point: SyncPoint<parking_lot::Mutex<u32>> = SyncPoint::new(parking_lot::Mutex::new(4));
    let mut lock = point.new_lock();
    *point.get_backend().payload_mut(&mut lock) += 3;
    point.unlock(lock);
    assert_eq!(point.sync_mut(|v: &mut u32| *v), 7);
}
