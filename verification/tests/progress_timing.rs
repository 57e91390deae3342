use hackerlog::logger;
use hackerlog::text::u64_to_dec;
use hackerlog::LogLevel;
use hackerlog::MemorySink;
use hackerlog::Progress;
use hackerlog::TimedOperation;

#[test]
fn test_progress() {
    let mut lg = logger();
    lg.set_writer(MemorySink::new()).unwrap();

    let mut progress = Progress::with_total("Testing", 100);
    progress.inc(50, &mut lg);
    progress.finish(&mut lg);

    let output = lg.writer.take();
    assert!(output.contains("[50/100]"));
    assert!(output.contains("[Complete]"));
}

#[test]
fn progress_without_total() {
    let mut lg = logger();
    let mut progress = Progress::new("Walking");
    progress.inc(3, &mut lg);
    progress.inc(4, &mut lg);
    let output = lg.writer.take();
    assert!(output.contains("Walking [3]"));
    assert!(output.contains("Walking [7]"));
}

#[test]
fn progress_update_replaces_message() {
    let mut lg = logger();
    let mut progress = Progress::with_total("Phase one", 2);
    progress.update("Phase two", &mut lg);
    let output = lg.writer.take();
    assert!(output.contains("Phase two [0/2]"));
}

#[test]
fn progress_finish_with_message() {
    let mut lg = logger();
    let progress = Progress::new("Job");
    progress.finish_with_message("All done", &mut lg);
    let output = lg.writer.take();
    assert!(output.contains("All done"));
    // finish logs at SUCCESS: the glyph of the default line shows it
    assert!(output.contains("[+]"));
}

#[test]
fn timed_operation_reports_duration() {
    let mut lg = logger();
    let op = TimedOperation::new("scan", LogLevel::INFO);
    op.finish(&mut lg);
    let output = lg.writer.take();
    assert!(output.contains("Operation 'scan' completed in "));
}

#[test]
fn timed_operation_respects_threshold() {
    let mut lg = logger();
    lg.min_level(LogLevel::WARN);
    let op = TimedOperation::new("scan", LogLevel::DEBUG);
    op.finish(&mut lg);
    assert_eq!(lg.writer.contents_str(), "");
}

#[test]
fn decimal_formatting_is_exact() {
    assert_eq!(u64_to_dec(0), "0");
    assert_eq!(u64_to_dec(7), "7");
    assert_eq!(u64_to_dec(10), "10");
    assert_eq!(u64_to_dec(1234567890), "1234567890");
    assert_eq!(u64_to_dec(u64::MAX), "18446744073709551615");
}
