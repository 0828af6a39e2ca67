use orchestration::search::CliffSearcher;
use orchestration::search::ExponentialCliffSearcher;
use orchestration::search::LoadIterator;

/// Drive a searcher against a fixed true capacity: a probe overloads exactly
/// when its target exceeds `capacity`. Returns (visited targets, last good).
fn drive(mut s: ExponentialCliffSearcher, capacity: u64) -> (Vec<u64>, Option<u64>) {
    let mut visited = Vec::new();
    let mut last_good = None;
    while let Some(t) = s.next() {
        visited.push(t);
        if t > capacity {
            s.overloaded();
        } else {
            last_good = Some(t);
        }
    }
    (visited, last_good)
}

#[test]
fn exponential_doubles_then_bisects() {
    // Capacity 700: every probe up to and including 512 succeeds, 1024
    // overloads; the search must then bisect strictly within (512, 1024).
    let s = ExponentialCliffSearcher::new(1, 1_000_000);
    let (visited, last_good) = drive(s, 700);

    let doubling: Vec<u64> = vec![1, 2, 4, 8, 16, 32, 64, 128, 256, 512, 1024];
    assert!(visited.len() >= doubling.len());
    assert_eq!(&visited[..doubling.len()], &doubling[..]);
    for &t in &visited[doubling.len()..] {
        assert!(512 < t && t < 1024, "bisection left (512, 1024): {}", t);
    }
    let a = last_good.expect("some probe succeeded");
    assert!((512..1024).contains(&a));
    // With tolerance one, the bisection pins the capacity exactly.
    assert_eq!(a, 700);
}

#[test]
fn exponential_bisection_extremes() {
    // Whatever the bisection probes answer, the final answer stays within
    // [512, 1024) once 512 succeeded and 1024 overloaded.
    let (_, a) = drive(ExponentialCliffSearcher::new(1, 1_000_000), 512);
    assert_eq!(a, Some(512));
    let (_, a) = drive(ExponentialCliffSearcher::new(1, 1_000_000), 1023);
    assert_eq!(a, Some(1023));
}

#[test]
fn exponential_reports_ceiling_when_nothing_overloads() {
    let s = ExponentialCliffSearcher::new(1, 16);
    let (visited, last_good) = drive(s, u64::MAX);
    assert_eq!(visited, vec![1, 2, 4, 8, 16]);
    assert_eq!(last_good, Some(16));
}

#[test]
fn exponential_caps_doubling_at_ceiling() {
    let s = ExponentialCliffSearcher::new(1, 12);
    let (visited, last_good) = drive(s, u64::MAX);
    assert_eq!(visited, vec![1, 2, 4, 8, 12]);
    assert_eq!(last_good, Some(12));
}

#[test]
fn exponential_stops_when_floor_overloads() {
    let mut s = ExponentialCliffSearcher::new(100, 1_000_000);
    assert_eq!(s.next(), Some(100));
    s.overloaded();
    assert_eq!(s.next(), None);
}

#[test]
fn exponential_tolerance_widens_convergence() {
    let s = ExponentialCliffSearcher::with_tolerance(1, 1_000_000, 64);
    let (visited, last_good) = drive(s, 700);
    let a = last_good.expect("some probe succeeded");
    assert!((512..1024).contains(&a));
    // Bisection stops once the bracket is no wider than 64, so strictly
    // fewer probes than full convergence takes.
    let (full_visited, _) = drive(ExponentialCliffSearcher::new(1, 1_000_000), 700);
    assert!(visited.len() < full_visited.len());
}

#[test]
fn exponential_degenerate_range() {
    // floor == ceiling: the one candidate decides the whole search.
    let mut s = ExponentialCliffSearcher::new(5, 5);
    assert_eq!(s.next(), Some(5));
    assert_eq!(s.next(), None);

    let mut s = ExponentialCliffSearcher::new(5, 5);
    assert_eq!(s.next(), Some(5));
    s.overloaded();
    assert_eq!(s.next(), None);
}

#[test]
fn load_iterator_empty_list() {
    let mut it = LoadIterator::new(Vec::new());
    assert_eq!(it.next(), None);
    it.overloaded();
    assert!(it.reported.is_empty());
}

#[test]
fn load_iterator_yields_list_regardless_of_feedback() {
    let mut it = LoadIterator::new(vec![10, 20, 30]);
    assert_eq!(it.next(), Some(10));
    it.overloaded();
    assert_eq!(it.next(), Some(20));
    it.overloaded();
    it.overloaded();
    assert_eq!(it.next(), Some(30));
    it.overloaded();
    assert_eq!(it.next(), None);
    // Feedback was still recorded for reporting, once per call.
    assert_eq!(it.reported, vec![10, 20, 20, 30]);
}

#[test]
fn load_iterator_without_feedback() {
    let mut it = LoadIterator::new(vec![5]);
    assert_eq!(it.next(), Some(5));
    assert_eq!(it.next(), None);
    assert_eq!(it.next(), None);
    assert!(it.reported.is_empty());
}

#[test]
fn searcher_dispatch_covers_both_variants() {
    let mut s = CliffSearcher::Exponential(ExponentialCliffSearcher::new(1, 4));
    assert_eq!(s.next(), Some(1));
    s.overloaded();
    assert_eq!(s.next(), None);

    let mut l = CliffSearcher::FixedList(LoadIterator::new(vec![7, 9]));
    assert_eq!(l.next(), Some(7));
    l.overloaded();
    assert_eq!(l.next(), Some(9));
    assert_eq!(l.next(), None);
}
