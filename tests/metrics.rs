use ui_overlay::metrics::{Counter, Histogram};

#[test]
fn counter_counts_and_wraps() {
    let mut c = Counter::default();
    let base = c.get();
    c.inc();
    c.incr(4);
    assert_eq!(c.get(), base + 5);
    c.incr(u64::MAX);
    assert_eq!(c.get(), 4);
}

#[test]
fn histogram_buckets_and_snapshot() {
    let mut h = Histogram::new(vec![1000, 10, 100, 10]);
    h.observe(5);
    h.observe(10);
    h.observe(50);
    h.observe(5000);
    let (pairs, sum, count) = h.snapshot();
    assert_eq!(pairs, vec![(10, 2), (100, 1), (1000, 0)]);
    assert_eq!(sum, 5065);
    assert_eq!(count, 4);
}

#[test]
fn histogram_without_buckets_still_sums() {
    let mut h = Histogram::new(vec![]);
    h.observe(7);
    h.observe(u64::MAX);
    let (pairs, sum, count) = h.snapshot();
    assert!(pairs.is_empty());
    assert_eq!(sum, 6);
    assert_eq!(count, 2);
}

#[test]
fn test_metrics_counter_increment() {
    let mut c = Counter::default();
    let base = c.get();
    c.inc();
    c.incr(4);
    assert_eq!(c.get(), base + 5);
}
