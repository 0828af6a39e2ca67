use orchestration::classify::ClientObserver;
use orchestration::classify::LineEvent;
use orchestration::classify::OverloadSignal;
use orchestration::classify::classify_line;
use orchestration::classify::is_low_throughput;
use orchestration::classify::parse_u64;
use orchestration::classify::tokenize;

#[test]
fn tokenize_splits_on_whitespace() {
    let toks = tokenize(b"  endpoint \t 50  300000 ");
    assert_eq!(toks, vec![b"endpoint".to_vec(), b"50".to_vec(), b"300000".to_vec()]);
    assert!(tokenize(b"").is_empty());
    assert!(tokenize(b" \t ").is_empty());
}

#[test]
fn parse_u64_accepts_digits_only() {
    assert_eq!(parse_u64(b"941"), Some(941));
    assert_eq!(parse_u64(b"0"), Some(0));
    assert_eq!(parse_u64(b"18446744073709551615"), Some(u64::MAX));
    assert_eq!(parse_u64(b"18446744073709551616"), None);
    assert_eq!(parse_u64(b""), None);
    assert_eq!(parse_u64(b"12a"), None);
    assert_eq!(parse_u64(b"-5"), None);
}

#[test]
fn classify_data_line() {
    assert_eq!(
        classify_line(b"endpoint 50 300000"),
        LineEvent::Data { percentile: 50, sojourn_us: 300000 }
    );
}

#[test]
fn classify_throughput_lines() {
    assert_eq!(
        classify_line(b"# actual ops/s 941"),
        LineEvent::Throughput { generated: false, rate: 941 }
    );
    assert_eq!(
        classify_line(b"# generated ops/s 1000"),
        LineEvent::Throughput { generated: true, rate: 1000 }
    );
}

#[test]
fn classify_comment_and_noise() {
    assert_eq!(classify_line(b"# server load: 0.5"), LineEvent::Comment);
    assert_eq!(classify_line(b"#done"), LineEvent::Comment);
    assert_eq!(classify_line(b""), LineEvent::Comment);
    assert_eq!(classify_line(b"# actual ops/s forty"), LineEvent::Comment);
    assert_eq!(classify_line(b"endpoint abc 5"), LineEvent::Unparseable);
    assert_eq!(classify_line(b"endpoint 50"), LineEvent::Unparseable);
    assert_eq!(classify_line(b"a b c d"), LineEvent::Unparseable);
}

#[test]
fn median_sojourn_thresholds() {
    // endpoint 50 300000 -> HighLatency; endpoint 50 0 -> HighLatency;
    // endpoint 50 150000 -> nothing.
    let mut obs = ClientObserver::new(1000);
    obs.observe_line(b"endpoint 50 300000");
    assert_eq!(obs.signals, vec![OverloadSignal::HighLatency { sojourn_us: 300000 }]);

    let mut obs = ClientObserver::new(1000);
    obs.observe_line(b"endpoint 50 0");
    assert_eq!(obs.signals, vec![OverloadSignal::HighLatency { sojourn_us: 0 }]);

    let mut obs = ClientObserver::new(1000);
    obs.observe_line(b"endpoint 50 150000");
    assert!(obs.signals.is_empty());

    // Only the median percentile is held against the threshold.
    let mut obs = ClientObserver::new(1000);
    obs.observe_line(b"endpoint 95 900000");
    assert!(obs.signals.is_empty());

    // The boundary itself does not overload.
    let mut obs = ClientObserver::new(1000);
    obs.observe_line(b"endpoint 50 200000");
    assert!(obs.signals.is_empty());
}

#[test]
fn throughput_shortfall_threshold() {
    // 941 of 1000 is a 5.9% shortfall: overload. 960 is 4%: fine.
    assert!(is_low_throughput(1000, 941));
    assert!(!is_low_throughput(1000, 960));
    // Exactly 5% is not *more than* 5%.
    assert!(!is_low_throughput(1000, 950));
    assert!(is_low_throughput(1000, 949));
    // Overachieving never overloads.
    assert!(!is_low_throughput(1000, 1200));
    assert!(!is_low_throughput(0, 0));

    let mut obs = ClientObserver::new(1000);
    obs.observe_line(b"# actual ops/s 941");
    assert_eq!(obs.signals, vec![OverloadSignal::LowThroughput { rate: 941 }]);

    let mut obs = ClientObserver::new(1000);
    obs.observe_line(b"# actual ops/s 960");
    assert!(obs.signals.is_empty());
}

#[test]
fn missing_output_raised_at_stream_end() {
    // Zero data lines over a full stream raises MissingOutput even if the
    // throughput line looks healthy.
    let mut obs = ClientObserver::new(1000);
    obs.observe_line(b"# generated ops/s 1000");
    obs.observe_line(b"# actual ops/s 1000");
    assert!(obs.signals.is_empty());
    obs.end_of_stream();
    assert_eq!(obs.signals, vec![OverloadSignal::MissingOutput]);
}

#[test]
fn data_line_suppresses_missing_output() {
    let mut obs = ClientObserver::new(1000);
    obs.observe_line(b"endpoint 50 100");
    obs.end_of_stream();
    assert!(obs.signals.is_empty());
}

#[test]
fn unparseable_lines_do_not_count_as_data() {
    let mut obs = ClientObserver::new(1000);
    obs.observe_line(b"garbage line here");
    obs.end_of_stream();
    assert_eq!(obs.signals, vec![OverloadSignal::MissingOutput]);
}

#[test]
fn signals_accumulate_in_order() {
    let mut obs = ClientObserver::new(1000);
    obs.observe_line(b"endpoint 50 300000");
    obs.observe_line(b"# actual ops/s 900");
    obs.observe_line(b"endpoint 50 400000");
    assert_eq!(
        obs.signals,
        vec![
            OverloadSignal::HighLatency { sojourn_us: 300000 },
            OverloadSignal::LowThroughput { rate: 900 },
            OverloadSignal::HighLatency { sojourn_us: 400000 },
        ]
    );
}
