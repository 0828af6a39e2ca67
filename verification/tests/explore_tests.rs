use orchestration::explore::Exploration;
use orchestration::explore::ExplorationRunner;
use orchestration::explore::TupleOutcome;
use orchestration::params::Distribution;
use orchestration::params::ExperimentParameters;
use orchestration::search::CliffSearcher;
use orchestration::search::ExponentialCliffSearcher;
use orchestration::search::LoadIterator;

fn tuple(write_every: u64) -> ExperimentParameters {
    ExperimentParameters {
        write_every,
        distribution: Distribution::Skewed,
        client_count: 6,
        partial: true,
        memory_limit: 0,
        join: true,
        articles: 5_000_000,
    }
}

#[test]
fn last_good_is_highest_non_overloaded_target() {
    // Probes overload exactly above capacity 700; the recorded result must
    // be the highest target that did not overload, never one that did.
    let searcher = CliffSearcher::Exponential(ExponentialCliffSearcher::new(1, 1_000_000));
    let mut ex = Exploration::new(searcher);
    let mut successes: Vec<u64> = Vec::new();
    let mut failures: Vec<u64> = Vec::new();
    while let Some(t) = ex.begin_probe(false) {
        let overloaded = t > 700;
        if overloaded {
            failures.push(t);
        } else {
            successes.push(t);
        }
        ex.finish_probe(overloaded);
    }
    let got = ex.result().expect("some probe succeeded");
    assert_eq!(got, *successes.iter().max().unwrap());
    assert!(!failures.contains(&got));
    assert_eq!(got, 700);
}

#[test]
fn load_iterator_result_is_last_success() {
    // The fixed replay list keeps its order, so the recorded result is the
    // *last* target that did not overload, even if an earlier one was higher.
    let searcher = CliffSearcher::FixedList(LoadIterator::new(vec![30, 10]));
    let mut ex = Exploration::new(searcher);
    while let Some(_t) = ex.begin_probe(false) {
        ex.finish_probe(false);
    }
    assert_eq!(ex.result(), Some(10));
}

#[test]
fn cancellation_stops_probes_and_keeps_results() {
    let searcher = CliffSearcher::FixedList(LoadIterator::new(vec![10, 20, 30]));
    let mut ex = Exploration::new(searcher);

    let t = ex.begin_probe(false).unwrap();
    assert_eq!(t, 10);
    ex.finish_probe(false);
    let t = ex.begin_probe(false).unwrap();
    assert_eq!(t, 20);
    ex.finish_probe(true);

    // Cancellation observed before the next probe: it never starts, and the
    // results of the prior probes are untouched.
    assert_eq!(ex.begin_probe(true), None);
    assert_eq!(ex.result(), Some(10));
    assert_eq!(ex.begin_probe(true), None);
    assert_eq!(ex.result(), Some(10));

    // Once the token clears, the replay list resumes where it stood.
    assert_eq!(ex.begin_probe(false), Some(30));
    ex.finish_probe(false);
    assert_eq!(ex.result(), Some(30));
}

#[test]
fn no_success_means_no_result() {
    let searcher = CliffSearcher::Exponential(ExponentialCliffSearcher::new(100, 1000));
    let mut ex = Exploration::new(searcher);
    while let Some(_t) = ex.begin_probe(false) {
        ex.finish_probe(true);
    }
    assert_eq!(ex.result(), None);
}

#[test]
fn runner_walks_matrix_in_order() {
    let mut runner = ExplorationRunner::new(vec![tuple(20), tuple(1000)]);
    let p = runner.next_tuple(false).unwrap();
    assert_eq!(p.write_every, 20);
    runner.record_tuple(TupleOutcome::Explored { last_good: Some(700) });
    let p = runner.next_tuple(false).unwrap();
    assert_eq!(p.write_every, 1000);
    runner.record_tuple(TupleOutcome::Failed);
    assert_eq!(runner.next_tuple(false), None);
    assert_eq!(
        runner.results,
        vec![TupleOutcome::Explored { last_good: Some(700) }, TupleOutcome::Failed]
    );
}

#[test]
fn runner_cancellation_keeps_recorded_results() {
    let mut runner = ExplorationRunner::new(vec![tuple(20), tuple(1000)]);
    runner.next_tuple(false).unwrap();
    runner.record_tuple(TupleOutcome::Explored { last_good: Some(512) });
    // Cancellation stops the matrix without touching recorded results.
    assert_eq!(runner.next_tuple(true), None);
    assert_eq!(runner.results, vec![TupleOutcome::Explored { last_good: Some(512) }]);
}
