use ganzhe::sync::Stat;
use std::sync::atomic::{AtomicUsize, Ordering};
use std::sync::Arc;
use std::task::{Wake, Waker};

struct CountingWaker(AtomicUsize);

impl Wake for CountingWaker {
    fn wake(self: Arc<Self>) {
        self.0.fetch_add(1, Ordering::SeqCst);
    }
}

fn counting_waker() -> (Arc<CountingWaker>, Waker) {
    let counter = Arc::new(CountingWaker(AtomicUsize::new(0)));
    let waker = Waker::from(counter.clone());
    (counter, waker)
}

#[test]
fn stat_new_and_update() {
    let mut stat = Stat::new(1u32);
    assert_eq!(stat.current_stat(), 1);
    assert!(stat.update_stat(5).is_empty());
    assert_eq!(stat.current_stat(), 5);
}

#[test]
fn changed_is_ready_on_second_poll() {
    let mut stat = Stat::new(0u8);
    let (counter, waker) = counting_waker();
    let mut changed = stat.changed();
    assert!(!changed.poll(&mut stat, waker.clone()));
    assert!(changed.poll(&mut stat, waker));
    assert_eq!(counter.0.load(Ordering::SeqCst), 0);
}

#[test]
fn update_with_new_value_wakes_every_waiter_once() {
    let mut stat = Stat::new(0u8);
    let (c1, w1) = counting_waker();
    let (c2, w2) = counting_waker();
    let mut a = stat.changed();
    let mut b = stat.changed();
    assert!(!a.poll(&mut stat, w1));
    assert!(!b.poll(&mut stat, w2));
    let to_wake = stat.update_stat(3);
    assert_eq!(to_wake.len(), 2);
    assert!(to_wake[0].will_wake(&Waker::from(c1.clone())));
    assert!(to_wake[1].will_wake(&Waker::from(c2.clone())));
    for w in to_wake {
        w.wake();
    }
    assert_eq!(c1.0.load(Ordering::SeqCst), 1);
    assert_eq!(c2.0.load(Ordering::SeqCst), 1);
    // The waiters were forgotten: a second change hands back nobody.
    assert!(stat.update_stat(4).is_empty());
    assert_eq!(c1.0.load(Ordering::SeqCst), 1);
    assert!(a.poll(&mut stat, Waker::from(c1.clone())));
}

#[test]
fn update_with_equal_value_wakes_nobody() {
    let mut stat = Stat::new(7u8);
    let (c, w) = counting_waker();
    let mut changed = stat.changed();
    assert!(!changed.poll(&mut stat, w));
    assert!(stat.update_stat(7).is_empty());
    assert_eq!(c.0.load(Ordering::SeqCst), 0);
    let to_wake = stat.update_stat(8);
    assert_eq!(to_wake.len(), 1);
    for w in to_wake {
        w.wake();
    }
    assert_eq!(c.0.load(Ordering::SeqCst), 1);
}
