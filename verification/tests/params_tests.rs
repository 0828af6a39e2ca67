use orchestration::params::Distribution;
use orchestration::params::ExperimentParameters;
use orchestration::params::artifact_stem;
use orchestration::params::histogram_name;
use orchestration::params::log_name;
use orchestration::params::push_dec;
use orchestration::params::statistics_name;

#[test]
fn decimal_rendering() {
    let mut v = Vec::new();
    push_dec(&mut v, 0);
    assert_eq!(v, b"0".to_vec());
    let mut v = Vec::new();
    push_dec(&mut v, 5_000_000);
    assert_eq!(v, b"5000000".to_vec());
    let mut v = b"x".to_vec();
    push_dec(&mut v, 42);
    assert_eq!(v, b"x42".to_vec());
    let mut v = Vec::new();
    push_dec(&mut v, u64::MAX);
    assert_eq!(v, b"18446744073709551615".to_vec());
}

#[test]
fn artifact_stem_partial_skewed() {
    let p = ExperimentParameters {
        write_every: 20,
        distribution: Distribution::Skewed,
        client_count: 6,
        partial: true,
        memory_limit: 0,
        join: true,
        articles: 5_000_000,
    };
    let stem = artifact_stem(&p, 200_000);
    assert_eq!(stem, b"partial.5000000a.200000t.20r.6c.0m.skewed".to_vec());
    assert_eq!(log_name(&p, 200_000), b"partial.5000000a.200000t.20r.6c.0m.skewed.log".to_vec());
    assert_eq!(
        histogram_name(&p, 200_000, 2),
        b"partial.5000000a.200000t.20r.6c.0m.skewed-client2.hist".to_vec()
    );
    assert_eq!(
        statistics_name(&p, 200_000),
        b"partial.5000000a.200000t.20r.6c.0m.skewed-statistics.json".to_vec()
    );
}

#[test]
fn artifact_stem_full_no_join_uniform() {
    let p = ExperimentParameters {
        write_every: 1000,
        distribution: Distribution::Uniform,
        client_count: 3,
        partial: false,
        memory_limit: 512 * 1024 * 1024,
        join: false,
        articles: 5_000_000,
    };
    let stem = artifact_stem(&p, 350_000);
    assert_eq!(stem, b"full_nj.5000000a.350000t.1000r.3c.536870912m.uniform".to_vec());
}
