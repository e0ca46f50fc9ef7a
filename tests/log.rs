use leveled_log::{Log, LogLevel};

fn shown(log: &Log) -> [Option<String>; 3] {
    [log.info("m"), log.warning("m"), log.error("m")]
}

#[test]
fn log_level() {
    assert_eq!(LogLevel::Info, LogLevel::from(0));
    assert_eq!(LogLevel::Warning, LogLevel::from(1));
    assert_eq!(LogLevel::Error, LogLevel::from(2));
    assert_eq!(LogLevel::Off, LogLevel::from(3));
}

#[test]
fn log() {
    assert_eq!(Log::new(2).log_level, LogLevel::Error);
}

#[test]
fn out_of_range_codes_turn_everything_off() {
    for code in [3u8, 4, 99, 128, 254, 255] {
        assert_eq!(LogLevel::from(code), LogLevel::Off);
        assert_eq!(Log::new(code).log_level, LogLevel::Off);
    }
}

#[test]
fn levels_are_ordered() {
    assert!(LogLevel::Info < LogLevel::Warning);
    assert!(LogLevel::Warning < LogLevel::Error);
    assert!(LogLevel::Error < LogLevel::Off);
    assert!(LogLevel::Info < LogLevel::Off);
    assert!(!(LogLevel::Warning < LogLevel::Warning));
    assert!(LogLevel::Warning <= LogLevel::Warning);
    assert!(!(LogLevel::Off <= LogLevel::Error));
    assert!(LogLevel::Off > LogLevel::Info);
}

#[test]
fn gate_matches_threshold_for_every_combination() {
    let levels = [LogLevel::Info, LogLevel::Warning, LogLevel::Error];
    for code in 0u8..=3 {
        let log = Log::new(code);
        let out = shown(&log);
        for (i, level) in levels.iter().enumerate() {
            assert_eq!(out[i].is_some(), log.log_level <= *level);
            assert_eq!(out[i].is_some(), (code as usize) <= i);
        }
    }
}

#[test]
fn threshold_info_shows_all_three() {
    let log = Log::new(0);
    assert_eq!(log.info("a").as_deref(), Some("INFO | a"));
    assert_eq!(log.warning("b").as_deref(), Some("WARNING | b"));
    assert_eq!(log.error("c").as_deref(), Some("ERROR | c"));
}

#[test]
fn threshold_error_shows_only_errors() {
    let log = Log::new(2);
    assert_eq!(log.info("a"), None);
    assert_eq!(log.warning("b"), None);
    assert_eq!(log.error("c").as_deref(), Some("ERROR | c"));
}

#[test]
fn threshold_off_shows_nothing() {
    let log = Log::new(99);
    assert_eq!(shown(&log), [None, None, None]);
    assert_eq!(log.error("anything at all"), None);
}

#[test]
fn empty_warning_keeps_separator() {
    let log = Log::new(1);
    assert_eq!(log.warning("").as_deref(), Some("WARNING | "));
    assert_eq!(log.info(""), None);
}

#[test]
fn message_is_not_escaped() {
    let log = Log::new(0);
    assert_eq!(log.info(" | x | ").as_deref(), Some("INFO |  | x | "));
    assert_eq!(log.error("a\tb é").as_deref(), Some("ERROR | a\tb é"));
}
