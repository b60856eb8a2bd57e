use leveled_log::logger::Logger;
use leveled_log::sink::LogFile;
use leveled_log::sink::SinkAction;

fn sink_logger(max: Option<u64>) -> Logger {
    let mut logger = Logger::new();
    logger.enable_log_saving("app.log");
    if let Some(n) = max {
        logger.set_max_log_file_size(n);
    }
    logger
}

#[test]
fn writes_append_line_and_newline() {
    let logger = sink_logger(None);
    let mut file = LogFile::new();
    logger.write_log_to_file("one", &mut file);
    logger.write_log_to_file("two", &mut file);
    assert_eq!(file.text().as_str(), "one\ntwo\n");
    assert_eq!(file.len(), 8);
}

#[test]
fn rollover_truncates_before_appending() {
    let logger = sink_logger(Some(10));
    let mut file = LogFile::new();
    logger.write_log_to_file("aaaaa", &mut file);
    logger.write_log_to_file("bbbbb", &mut file);
    // 12 characters now exceed the bound of 10, so the next write rolls over.
    assert_eq!(file.len(), 12);
    logger.write_log_to_file("cc", &mut file);
    // The file holds exactly the one new line, not the bound plus the line.
    assert_eq!(file.text().as_str(), "cc\n");
    assert_eq!(file.len(), 3);
}

#[test]
fn size_exactly_at_bound_still_appends() {
    let logger = sink_logger(Some(6));
    let mut file = LogFile::new();
    logger.write_log_to_file("aaaaa", &mut file);
    assert_eq!(file.len(), 6);
    // The bound is only exceeded strictly; at exactly 6 the write appends.
    logger.write_log_to_file("b", &mut file);
    assert_eq!(file.text().as_str(), "aaaaa\nb\n");
}

#[test]
fn unconfigured_sink_skips() {
    let logger = Logger::new();
    let mut file = LogFile::new();
    logger.write_log_to_file("lost", &mut file);
    assert_eq!(file.text().as_str(), "");
    assert_eq!(logger.sink_action(0), SinkAction::Skip);
}

#[test]
fn sink_action_matches_configuration() {
    let unbounded = sink_logger(None);
    assert_eq!(unbounded.sink_action(0), SinkAction::Append);
    assert_eq!(unbounded.sink_action(u64::MAX), SinkAction::Append);
    let bounded = sink_logger(Some(10));
    assert_eq!(bounded.sink_action(10), SinkAction::Append);
    assert_eq!(bounded.sink_action(11), SinkAction::TruncateThenAppend);
}

#[test]
fn from_text_starts_with_given_contents() {
    let logger = sink_logger(None);
    let mut file = LogFile::from_text(String::from("old\n"));
    logger.write_log_to_file("new", &mut file);
    assert_eq!(file.text().as_str(), "old\nnew\n");
}
