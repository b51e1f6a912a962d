use ganzhe::runtime::{choose_local_scheduler, choose_random_local_scheduler, Builder, ThreadType};

#[test]
fn builder_defaults_to_parallelism() {
    let b = Builder::new();
    assert_eq!(b.scheduler_threads(8), (8, 8));
}

#[test]
fn builder_counts_are_kept() {
    let b = Builder::new().cross_scheduler_threads(3).local_scheduler_threads(2);
    assert_eq!(b.scheduler_threads(16), (3, 2));
    let b = Builder::new().local_scheduler_threads(5);
    assert_eq!(b.scheduler_threads(4), (4, 5));
}

#[test]
fn local_scheduler_index_wraps() {
    assert_eq!(choose_local_scheduler(0, 4), 0);
    assert_eq!(choose_local_scheduler(9, 4), 1);
    assert_eq!(choose_local_scheduler(usize::MAX, 1), 0);
    for _ in 0..100 {
        assert!(choose_random_local_scheduler(3) < 3);
    }
}

#[test]
fn thread_types_compare() {
    assert_eq!(ThreadType::Local { index: 2 }, ThreadType::Local { index: 2 });
    assert_ne!(ThreadType::Cross, ThreadType::Foreign);
}
