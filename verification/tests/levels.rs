use debug_session::{Backtrace, LogLevel};
use tracing_subscriber::filter::LevelFilter;

const SCALE: [LogLevel; 6] = [
    LogLevel::Off,
    LogLevel::Error,
    LogLevel::Warn,
    LogLevel::Info,
    LogLevel::Debug,
    LogLevel::Trace,
];

#[test]
fn ordinals_count_up_the_scale() {
    assert_eq!(LogLevel::Off.ordinal(), 0);
    assert_eq!(LogLevel::Error.ordinal(), 1);
    assert_eq!(LogLevel::Warn.ordinal(), 2);
    assert_eq!(LogLevel::Info.ordinal(), 3);
    assert_eq!(LogLevel::Debug.ordinal(), 4);
    assert_eq!(LogLevel::Trace.ordinal(), 5);
}

#[test]
fn levels_are_ordered_by_verbosity() {
    assert!(LogLevel::Off < LogLevel::Error);
    assert!(LogLevel::Error < LogLevel::Warn);
    assert!(LogLevel::Warn < LogLevel::Info);
    assert!(LogLevel::Info < LogLevel::Debug);
    assert!(LogLevel::Debug < LogLevel::Trace);
    for (i, a) in SCALE.iter().enumerate() {
        for (j, b) in SCALE.iter().enumerate() {
            assert_eq!(a < b, i < j);
            assert_eq!(a <= b, i <= j);
            assert_eq!(a > b, i > j);
            assert_eq!(a == b, i == j);
        }
    }
}

#[test]
fn each_level_maps_to_its_backend_filter() {
    assert_eq!(LogLevel::Off.level_filter(), LevelFilter::OFF);
    assert_eq!(LogLevel::Error.level_filter(), LevelFilter::ERROR);
    assert_eq!(LogLevel::Warn.level_filter(), LevelFilter::WARN);
    assert_eq!(LogLevel::Info.level_filter(), LevelFilter::INFO);
    assert_eq!(LogLevel::Debug.level_filter(), LevelFilter::DEBUG);
    assert_eq!(LogLevel::Trace.level_filter(), LevelFilter::TRACE);
}

#[test]
fn backend_filters_keep_the_order_of_the_scale() {
    for a in SCALE.iter() {
        for b in SCALE.iter() {
            assert_eq!(a.level_filter() < b.level_filter(), a < b);
        }
    }
}

#[test]
fn backend_parses_ordinals_as_the_same_filters() {
    for level in SCALE.iter() {
        let parsed: LevelFilter = format!("{}", level.ordinal()).parse().unwrap();
        assert_eq!(parsed, level.level_filter());
    }
}

#[test]
fn backtrace_tokens() {
    assert_eq!(Backtrace::Full.to_string(), "full");
    assert_eq!(Backtrace::Short.to_string(), "short");
}
