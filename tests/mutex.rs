use std::sync::atomic::{AtomicUsize, Ordering};
use std::sync::Arc;

use futures::task::{noop_waker, waker, ArcWake, Poll, Waker};
use futures_mutex::unsync::{Mutex, MutexGuard, TryLockError};

struct Counter {
    wakes: AtomicUsize,
}

impl ArcWake for Counter {
    fn wake_by_ref(arc_self: &Arc<Self>) {
        arc_self.wakes.fetch_add(1, Ordering::SeqCst);
    }
}

fn counting_waker() -> (Arc<Counter>, Waker) {
    let c = Arc::new(Counter { wakes: AtomicUsize::new(0) });
    let w = waker(c.clone());
    (c, w)
}

fn take<T>(m: &mut Mutex<T>) -> MutexGuard<T> {
    match m.try_lock(false) {
        Ok(g) => g,
        Err(_) => panic!("the lock was expected to be free"),
    }
}

#[test]
fn try_lock_scenario() {
    let mut m = Mutex::new(5);
    let mut g = take(&mut m);
    assert_eq!(*g, 5);
    assert!(matches!(m.try_lock(false), Err(TryLockError::WouldBlock)));
    *g = 6;
    m.unlock(g, false);
    let g = take(&mut m);
    assert_eq!(*g, 6);
}

#[test]
fn round_trip() {
    let m = Mutex::new(String::from("abc"));
    match m.into_inner() {
        Ok(s) => assert_eq!(s, "abc"),
        Err(_) => panic!("unexpected poison"),
    }
}

#[test]
fn round_trip_after_lock_cycle() {
    let mut m = Mutex::new(1u32);
    let mut g = take(&mut m);
    *g.deref_mut() += 1;
    m.unlock(g, false);
    assert!(matches!(m.into_inner(), Ok(2)));
}

#[test]
fn would_block_changes_nothing() {
    let mut m = Mutex::new(3);
    let g = take(&mut m);
    let (_c, w) = counting_waker();
    assert!(matches!(m.poll_lock(&w, false), Poll::Pending));
    for _ in 0..3 {
        assert!(matches!(m.try_lock(true), Err(TryLockError::WouldBlock)));
    }
    assert!(!m.is_poisoned());
    let woken = m.release(g, false);
    assert_eq!(woken.len(), 1);
}

#[test]
fn failure_while_holding_poisons() {
    let mut m = Mutex::new(0);
    let g = take(&mut m);
    m.unlock(g, true);
    assert!(m.is_poisoned());
    match m.try_lock(false) {
        Err(TryLockError::Poisoned(e)) => {
            assert_eq!(**e.get_ref(), 0);
            let g = e.into_inner();
            m.unlock(g, false);
        }
        _ => panic!("expected a poisoned guard"),
    }
    assert!(m.is_poisoned());
    match m.into_inner() {
        Err(e) => assert_eq!(e.into_inner(), 0),
        Ok(_) => panic!("poison was lost"),
    }
}

#[test]
fn failure_before_acquire_does_not_poison() {
    let mut m = Mutex::new(0);
    let g = match m.try_lock(true) {
        Ok(g) => g,
        Err(_) => panic!("the lock was expected to be free"),
    };
    m.unlock(g, true);
    assert!(!m.is_poisoned());
}

#[test]
fn poison_is_permanent() {
    let mut m = Mutex::new(0);
    let g = take(&mut m);
    m.unlock(g, true);
    for _ in 0..3 {
        let g = match m.try_lock(false) {
            Err(TryLockError::Poisoned(e)) => e.into_inner(),
            _ => panic!("expected a poisoned guard"),
        };
        m.unlock(g, false);
        assert!(m.is_poisoned());
    }
}

#[test]
fn pending_acquire_is_woken_and_then_succeeds() {
    let mut m = Mutex::new(10);
    let g = take(&mut m);
    let (c, w) = counting_waker();
    let mut acquire = m.lock();
    assert!(matches!(acquire.poll(&mut m, &w, false), Poll::Pending));
    assert_eq!(c.wakes.load(Ordering::SeqCst), 0);
    m.unlock(g, false);
    assert_eq!(c.wakes.load(Ordering::SeqCst), 1);
    match acquire.poll(&mut m, &w, false) {
        Poll::Ready(Ok(g)) => assert_eq!(*g, 10),
        _ => panic!("expected the lock"),
    }
}

#[test]
fn release_wakes_every_waiter_including_abandoned() {
    let mut m = Mutex::new(0);
    let g = take(&mut m);
    let (c1, w1) = counting_waker();
    let (c2, w2) = counting_waker();
    {
        let mut abandoned = m.lock();
        assert!(matches!(abandoned.poll(&mut m, &w1, false), Poll::Pending));
    }
    assert!(matches!(m.poll_lock(&w2, false), Poll::Pending));
    assert!(matches!(m.poll_lock(&w2, false), Poll::Pending));
    m.unlock(g, false);
    assert_eq!(c1.wakes.load(Ordering::SeqCst), 1);
    assert_eq!(c2.wakes.load(Ordering::SeqCst), 2);
    let g = take(&mut m);
    m.unlock(g, false);
    assert_eq!(c2.wakes.load(Ordering::SeqCst), 2);
}

#[test]
fn release_returns_registered_handles_and_empties_queue() {
    let mut m = Mutex::new(0);
    let g = take(&mut m);
    let w = noop_waker();
    assert!(matches!(m.poll_lock(&w, false), Poll::Pending));
    assert!(matches!(m.poll_lock(&w, false), Poll::Pending));
    let woken = m.release(g, false);
    assert_eq!(woken.len(), 2);
    let g = take(&mut m);
    assert_eq!(m.release(g, false).len(), 0);
}

#[test]
fn poll_on_poisoned_lock_reports_poison() {
    let mut m = Mutex::new(7);
    let g = take(&mut m);
    m.unlock(g, true);
    let w = noop_waker();
    match m.poll_lock(&w, false) {
        Poll::Ready(Err(e)) => assert_eq!(*e.into_inner(), 7),
        _ => panic!("expected a poisoned guard"),
    }
}

#[test]
fn get_mut_reaches_value() {
    let mut m = Mutex::new(1);
    match m.get_mut() {
        Ok(v) => *v = 4,
        Err(_) => panic!("unexpected poison"),
    }
    let g = take(&mut m);
    assert_eq!(*g, 4);
    m.unlock(g, true);
    match m.get_mut() {
        Err(e) => assert_eq!(*e.into_inner(), 4),
        Ok(_) => panic!("poison was lost"),
    }
}

#[test]
fn from_and_default() {
    let m: Mutex<i32> = Mutex::from(9);
    assert!(matches!(m.into_inner(), Ok(9)));
    let d: Mutex<i32> = Mutex::default();
    assert!(!d.is_poisoned());
    assert!(matches!(d.into_inner(), Ok(0)));
}

#[test]
fn fmt_data_hides_held_value() {
    let mut m = Mutex::new(2);
    assert_eq!(m.fmt_data(), Some(&2));
    let g = take(&mut m);
    assert_eq!(m.fmt_data(), None);
    m.unlock(g, false);
    assert_eq!(m.fmt_data(), Some(&2));
}

#[test]
fn wake_all_wakes_each_handle() {
    let (c, w) = counting_waker();
    let handles = vec![w.clone(), w.clone(), w];
    futures_mutex::unsync::wake_all(handles);
    assert_eq!(c.wakes.load(Ordering::SeqCst), 3);
}
