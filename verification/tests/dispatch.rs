use sinklog::{get_logger, set_logger, use_logger, LogLevel, Logger, LoggerCell, Sink};

fn buffer_logger(n_sinks: usize, level: LogLevel) -> Logger {
    let mut outputs = Vec::new();
    for _ in 0..n_sinks {
        outputs.push(Sink::buffer());
    }
    Logger::new(outputs, level)
}

fn contents(cell: &LoggerCell, i: usize) -> Vec<u8> {
    get_logger(cell).outputs[i].buffered().unwrap().clone()
}

#[test]
fn info() {
    let mut cell = LoggerCell::new(buffer_logger(1, LogLevel::Info));
    sinklog::info(&mut cell, "something");

    let data = contents(&cell, 0);
    assert_eq!(data.as_slice(), "something\n".as_bytes());
    assert_eq!(data.len(), "something\n".as_bytes().len());
}

#[test]
fn my_test() {
    let logger = buffer_logger(1, LogLevel::Info);
    let mut cell = LoggerCell::new(sinklog::default_logger());

    set_logger(&mut cell, logger);

    use_logger(&mut cell, "hello!");

    assert_eq!(contents(&cell, 0).as_slice(), "hello!".as_bytes());
}

#[test]
fn equal_level_is_dispatched() {
    let mut cell = LoggerCell::new(buffer_logger(1, LogLevel::Warn));
    sinklog::warn(&mut cell, "w");
    assert_eq!(contents(&cell, 0).as_slice(), "w\n".as_bytes());
}

#[test]
fn higher_level_is_dispatched_lower_is_not() {
    let mut cell = LoggerCell::new(buffer_logger(1, LogLevel::Info));
    sinklog::debug(&mut cell, "quiet");
    assert_eq!(contents(&cell, 0).as_slice(), "".as_bytes());

    sinklog::error(&mut cell, "loud");
    assert_eq!(contents(&cell, 0).as_slice(), "loud\n".as_bytes());
}

#[test]
fn error_reaches_both_sinks_once() {
    let mut cell = LoggerCell::new(sinklog::default_logger());
    set_logger(&mut cell, buffer_logger(2, LogLevel::Warn));

    sinklog::error(&mut cell, "x");

    assert_eq!(contents(&cell, 0).as_slice(), "x\n".as_bytes());
    assert_eq!(contents(&cell, 1).as_slice(), "x\n".as_bytes());
    assert_eq!(get_logger(&cell).write_failures, 0);
}

#[test]
fn failing_sink_does_not_block_healthy_sink() {
    let mut outputs = Vec::new();
    outputs.push(Sink::failing());
    outputs.push(Sink::buffer());
    let mut cell = LoggerCell::new(Logger::new(outputs, LogLevel::Debug));

    sinklog::info(&mut cell, "through");

    assert_eq!(contents(&cell, 1).as_slice(), "through\n".as_bytes());
    assert!(get_logger(&cell).outputs[0].buffered().is_none());
    assert_eq!(get_logger(&cell).write_failures, 1);
}

#[test]
fn configure_twice_behaves_like_once() {
    let mut once = LoggerCell::new(sinklog::default_logger());
    set_logger(&mut once, buffer_logger(1, LogLevel::Warn));
    sinklog::error(&mut once, "x");

    let mut twice = LoggerCell::new(sinklog::default_logger());
    set_logger(&mut twice, buffer_logger(1, LogLevel::Warn));
    set_logger(&mut twice, buffer_logger(1, LogLevel::Warn));
    sinklog::error(&mut twice, "x");

    assert_eq!(contents(&once, 0), contents(&twice, 0));
    assert_eq!(get_logger(&once).level, get_logger(&twice).level);
    assert_eq!(
        get_logger(&once).write_failures,
        get_logger(&twice).write_failures
    );
}

#[test]
fn default_logger_filters_debug_and_passes_info() {
    let default = sinklog::default_logger();
    assert_eq!(default.level, LogLevel::Info);
    assert_eq!(default.outputs.len(), 1);
    assert!(default.outputs[0].buffered().is_none());

    // The same filter, observed on an in-memory sink at the default level.
    let mut cell = LoggerCell::new(buffer_logger(1, Logger::configure_default(None).level));
    sinklog::debug(&mut cell, "x");
    assert_eq!(contents(&cell, 0).as_slice(), "".as_bytes());
    sinklog::info(&mut cell, "x");
    assert_eq!(contents(&cell, 0).as_slice(), "x\n".as_bytes());
}

#[test]
fn use_logger_ignores_level_and_appends_raw_bytes() {
    let mut cell = LoggerCell::new(buffer_logger(1, LogLevel::Error));
    use_logger(&mut cell, "raw");
    use_logger(&mut cell, "bytes");
    assert_eq!(contents(&cell, 0).as_slice(), "rawbytes".as_bytes());
}

#[test]
fn use_logger_records_a_failing_sink() {
    let mut cell = LoggerCell::new(Logger::new(
        vec![Sink::failing()],
        LogLevel::Error,
    ));
    use_logger(&mut cell, "lost");
    assert_eq!(get_logger(&cell).write_failures, 1);
}

#[test]
fn flush_all_changes_no_contents_and_counts_failures() {
    let mut outputs = Vec::new();
    outputs.push(Sink::buffer());
    outputs.push(Sink::failing());
    let mut logger = Logger::new(outputs, LogLevel::Debug);
    logger.log(LogLevel::Info, "kept");

    let failed = logger.flush_all();

    assert_eq!(failed, 1);
    assert_eq!(logger.outputs[0].buffered().unwrap().as_slice(), "kept\n".as_bytes());
    assert_eq!(logger.write_failures, 2);
}

#[test]
fn write_failures_accumulate_per_failing_sink() {
    let mut outputs = Vec::new();
    outputs.push(Sink::failing());
    outputs.push(Sink::failing());
    let mut logger = Logger::new(outputs, LogLevel::Debug);
    assert_eq!(logger.write_failures, 0);

    logger.log(LogLevel::Warn, "a");
    assert_eq!(logger.write_failures, 2);

    logger.log(LogLevel::Debug, "b");
    assert_eq!(logger.write_failures, 4);

    // A filtered message writes nothing and fails nothing.
    let mut filtered = Logger::new(vec![Sink::failing()], LogLevel::Error);
    filtered.log(LogLevel::Info, "c");
    assert_eq!(filtered.write_failures, 0);
}
