use log_bridge::{Level, LevelFilter, LogLevel};

const ALL_LEVELS: [LogLevel; 6] = [
    LogLevel::Trace,
    LogLevel::Debug,
    LogLevel::Info,
    LogLevel::Warn,
    LogLevel::Error,
    LogLevel::Critical,
];

const ALL_FILTERS: [LevelFilter; 6] = [
    LevelFilter::Off,
    LevelFilter::Error,
    LevelFilter::Warn,
    LevelFilter::Info,
    LevelFilter::Debug,
    LevelFilter::Trace,
];

#[test]
fn severity_runs_from_trace_to_critical() {
    assert_eq!(LogLevel::Trace.severity(), 0);
    assert_eq!(LogLevel::Debug.severity(), 1);
    assert_eq!(LogLevel::Info.severity(), 2);
    assert_eq!(LogLevel::Warn.severity(), 3);
    assert_eq!(LogLevel::Error.severity(), 4);
    assert_eq!(LogLevel::Critical.severity(), 5);
}

#[test]
fn comparison_operators_follow_severity() {
    assert!(LogLevel::Trace < LogLevel::Debug);
    assert!(LogLevel::Debug < LogLevel::Info);
    assert!(LogLevel::Info < LogLevel::Warn);
    assert!(LogLevel::Warn < LogLevel::Error);
    assert!(LogLevel::Error < LogLevel::Critical);
    for a in ALL_LEVELS {
        for b in ALL_LEVELS {
            assert_eq!(a < b, a.severity() < b.severity());
            assert_eq!(a == b, a.severity() == b.severity());
        }
    }
}

#[test]
fn each_level_maps_to_the_filter_of_its_name() {
    assert_eq!(LogLevel::Trace.to_level_filter(), LevelFilter::Trace);
    assert_eq!(LogLevel::Debug.to_level_filter(), LevelFilter::Debug);
    assert_eq!(LogLevel::Info.to_level_filter(), LevelFilter::Info);
    assert_eq!(LogLevel::Warn.to_level_filter(), LevelFilter::Warn);
    assert_eq!(LogLevel::Error.to_level_filter(), LevelFilter::Error);
}

#[test]
fn critical_maps_to_off() {
    assert_eq!(LogLevel::Critical.to_level_filter(), LevelFilter::Off);
}

#[test]
fn level_names_are_lower_case() {
    assert_eq!(LogLevel::Trace.as_str(), "trace");
    assert_eq!(LogLevel::Debug.as_str(), "debug");
    assert_eq!(LogLevel::Info.as_str(), "info");
    assert_eq!(LogLevel::Warn.as_str(), "warn");
    assert_eq!(LogLevel::Error.as_str(), "error");
    assert_eq!(LogLevel::Critical.as_str(), "critical");
}

#[test]
fn facade_levels_map_one_to_one() {
    assert_eq!(Level::Error.to_log_level(), LogLevel::Error);
    assert_eq!(Level::Warn.to_log_level(), LogLevel::Warn);
    assert_eq!(Level::Info.to_log_level(), LogLevel::Info);
    assert_eq!(Level::Debug.to_log_level(), LogLevel::Debug);
    assert_eq!(Level::Trace.to_log_level(), LogLevel::Trace);
    let all = [Level::Error, Level::Warn, Level::Info, Level::Debug, Level::Trace];
    for a in all {
        assert_ne!(a.to_log_level(), LogLevel::Critical);
        for b in all {
            assert_eq!(a.to_log_level() == b.to_log_level(), a == b);
        }
    }
}

#[test]
fn filter_floor_is_the_level_of_its_name() {
    assert_eq!(LevelFilter::Off.to_level(), None);
    assert_eq!(LevelFilter::Error.to_level(), Some(LogLevel::Error));
    assert_eq!(LevelFilter::Warn.to_level(), Some(LogLevel::Warn));
    assert_eq!(LevelFilter::Info.to_level(), Some(LogLevel::Info));
    assert_eq!(LevelFilter::Debug.to_level(), Some(LogLevel::Debug));
    assert_eq!(LevelFilter::Trace.to_level(), Some(LogLevel::Trace));
}

#[test]
fn off_allows_nothing() {
    for level in ALL_LEVELS {
        assert!(!LevelFilter::Off.allows(level));
    }
}

#[test]
fn trace_filter_allows_everything() {
    for level in ALL_LEVELS {
        assert!(LevelFilter::Trace.allows(level));
    }
}

#[test]
fn warn_filter_allows_warn_and_above() {
    assert!(!LevelFilter::Warn.allows(LogLevel::Trace));
    assert!(!LevelFilter::Warn.allows(LogLevel::Debug));
    assert!(!LevelFilter::Warn.allows(LogLevel::Info));
    assert!(LevelFilter::Warn.allows(LogLevel::Warn));
    assert!(LevelFilter::Warn.allows(LogLevel::Error));
    assert!(LevelFilter::Warn.allows(LogLevel::Critical));
}

#[test]
fn a_filter_allows_exactly_the_levels_at_or_above_its_floor() {
    for filter in ALL_FILTERS {
        for level in ALL_LEVELS {
            let expected = match filter.to_level() {
                Some(least) => least.severity() <= level.severity(),
                None => false,
            };
            assert_eq!(filter.allows(level), expected);
        }
    }
}

#[test]
fn every_level_but_critical_is_the_floor_of_its_filter() {
    for level in ALL_LEVELS {
        if level == LogLevel::Critical {
            assert_eq!(level.to_level_filter().to_level(), None);
        } else {
            assert_eq!(level.to_level_filter().to_level(), Some(level));
        }
    }
}
