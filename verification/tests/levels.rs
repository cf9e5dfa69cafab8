use sinklog::{LevelParseError, LogLevel, Logger};

#[test]
fn parse_accepts_every_ascii_case() {
    assert_eq!(LogLevel::parse("debug"), Ok(LogLevel::Debug));
    assert_eq!(LogLevel::parse("Info"), Ok(LogLevel::Info));
    assert_eq!(LogLevel::parse("WARN"), Ok(LogLevel::Warn));
    assert_eq!(LogLevel::parse("Error"), Ok(LogLevel::Error));
    assert_eq!(LogLevel::parse("DEBUG"), Ok(LogLevel::Debug));
    assert_eq!(LogLevel::parse("iNfO"), Ok(LogLevel::Info));
    assert_eq!(LogLevel::parse("warn"), Ok(LogLevel::Warn));
    assert_eq!(LogLevel::parse("eRRoR"), Ok(LogLevel::Error));
}

#[test]
fn parse_rejects_everything_else() {
    assert_eq!(LogLevel::parse(""), Err(LevelParseError));
    assert_eq!(LogLevel::parse("warning"), Err(LevelParseError));
    assert_eq!(LogLevel::parse("inf"), Err(LevelParseError));
    assert_eq!(LogLevel::parse("infoo"), Err(LevelParseError));
    assert_eq!(LogLevel::parse("trace"), Err(LevelParseError));
    assert_eq!(LogLevel::parse("debug "), Err(LevelParseError));
    assert_eq!(LogLevel::parse("débug"), Err(LevelParseError));
}

#[test]
fn severity_order_is_debug_info_warn_error() {
    assert!(LogLevel::Debug.severity_rank() < LogLevel::Info.severity_rank());
    assert!(LogLevel::Info.severity_rank() < LogLevel::Warn.severity_rank());
    assert!(LogLevel::Warn.severity_rank() < LogLevel::Error.severity_rank());

    assert!(LogLevel::Error.passes(&LogLevel::Warn));
    assert!(LogLevel::Warn.passes(&LogLevel::Warn));
    assert!(!LogLevel::Info.passes(&LogLevel::Warn));
    assert!(LogLevel::Debug.passes(&LogLevel::Debug));
    assert!(!LogLevel::Debug.passes(&LogLevel::Info));
}

#[test]
fn default_level_falls_back_to_info() {
    assert_eq!(Logger::configure_default(None).level, LogLevel::Info);
    assert_eq!(Logger::configure_default(Some("nonsense")).level, LogLevel::Info);
    assert_eq!(Logger::configure_default(Some("")).level, LogLevel::Info);
    assert_eq!(Logger::configure_default(Some("ERROR")).level, LogLevel::Error);
    assert_eq!(Logger::configure_default(Some("debug")).level, LogLevel::Debug);
    assert_eq!(Logger::configure_default(Some("Warn")).level, LogLevel::Warn);
}
