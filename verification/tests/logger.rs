use hackerlog::logger;
use hackerlog::LogError;
use hackerlog::LogLevel;
use hackerlog::LogSink;
use hackerlog::Logger;
use hackerlog::MemorySink;

/// Removes every `ESC [ ... m` escape sequence.
fn strip_escapes(s: &str) -> String {
    let mut out = String::new();
    let mut chars = s.chars();
    while let Some(c) = chars.next() {
        if c == '\u{1b}' {
            for d in chars.by_ref() {
                if d == 'm' {
                    break;
                }
            }
        } else {
            out.push(c);
        }
    }
    out
}

#[test]
fn test_basic_logging() {
    let mut lg = logger();
    lg.set_writer(MemorySink::new()).unwrap();

    let _ = lg.log(LogLevel::INFO, "Test message", "tests.rs", 1);

    let output = lg.writer.take();
    assert!(output.contains("Test message"));
}

#[test]
fn test_context() {
    let mut lg = logger();
    lg.set_writer(MemorySink::new()).unwrap();

    let _guard = lg.add_context("test", "value");
    let _ = lg.log(LogLevel::INFO, "Test with context", "tests.rs", 1);

    let output = lg.writer.take();
    assert!(output.contains("test=value"));
}

#[test]
fn test_verbose_mode() {
    let mut lg = logger();
    lg.set_writer(MemorySink::new()).unwrap();
    lg.verbose(true);

    let _ = lg.log(LogLevel::INFO, "Verbose test", "tests.rs", 1);

    let output = lg.writer.take();
    assert!(output.contains("PID:"));
    assert!(output.contains("Thread:"));
}

#[test]
fn verbose_line_carries_clock_and_identity() {
    let mut lg = logger();
    lg.verbose(true);
    lg.set_identity(321, 5, "");

    let _ = lg.log(LogLevel::INFO, "tick", "lib.rs", 44);

    let output = strip_escapes(&lg.writer.take());
    // `[>] (HH:MM:SS) - [PID: 321 | Thread: Thread-5] - (lib.rs:44) : tick`
    let open = output.find('(').unwrap();
    let close = output.find(')').unwrap();
    let clock = &output[open + 1..close];
    assert_eq!(clock.len(), 8);
    assert_eq!(&clock[2..3], ":");
    assert_eq!(&clock[5..6], ":");
    assert!(clock.chars().enumerate().all(|(i, c)| if i == 2 || i == 5 {
        c == ':'
    } else {
        c.is_ascii_digit()
    }));
    assert!(output.contains("[PID: 321 | Thread: Thread-5]"));
    assert!(output.contains("(lib.rs:44) : tick"));
}

#[test]
fn named_thread_label_is_used() {
    let mut lg = logger();
    lg.verbose(true);
    lg.set_identity(1, 9, "worker");

    let _ = lg.log(LogLevel::INFO, "x", "a.rs", 1);

    let output = lg.writer.take();
    assert!(output.contains("Thread: worker]"));
}

#[test]
fn simple_format_scenario() {
    let mut lg = logger();
    lg.set_format("{symbol} {message}");

    let _ = lg.log(LogLevel::INFO, "hello", "tests.rs", 1);

    let raw = lg.writer.take();
    assert_eq!(strip_escapes(&raw), "[>] hello\n");
    // the color wrap is exact: truecolor white, then the line, then a reset
    assert_eq!(raw, "\u{1b}[38;2;255;255;255m[>] hello\n\u{1b}[39m");
}

#[test]
fn threshold_scenario() {
    let mut lg = logger();
    lg.min_level(LogLevel::WARN);

    let _ = lg.log(LogLevel::DEBUG, "quiet", "tests.rs", 1);
    let _ = lg.log(LogLevel::INFO, "quiet", "tests.rs", 2);
    assert_eq!(lg.writer.contents_str(), "");

    let _ = lg.log(LogLevel::WARN, "loud", "tests.rs", 3);
    let output = lg.writer.take();
    assert_eq!(output.matches('\n').count(), 1);
    assert!(output.contains("loud"));
}

#[test]
fn context_scenario() {
    let mut lg = logger();
    lg.set_format("{context}{message}");

    let guard = lg.add_context("user", "bob");
    let _ = lg.log(LogLevel::INFO, "hi", "tests.rs", 1);
    assert_eq!(strip_escapes(&lg.writer.take()), "[user=bob] hi\n");

    lg.remove_context(guard);
    let _ = lg.log(LogLevel::INFO, "hi", "tests.rs", 2);
    assert_eq!(strip_escapes(&lg.writer.take()), "hi\n");
}

#[test]
fn context_ordering_and_release() {
    let mut lg = logger();
    lg.set_format("{context}");

    let g_a = lg.add_context("a", "1");
    let _g_b = lg.add_context("b", "2");
    let _ = lg.log(LogLevel::INFO, "", "tests.rs", 1);
    assert_eq!(strip_escapes(&lg.writer.take()), "[a=1, b=2] \n");

    lg.remove_context(g_a);
    let _ = lg.log(LogLevel::INFO, "", "tests.rs", 2);
    assert_eq!(strip_escapes(&lg.writer.take()), "[b=2] \n");
}

#[test]
fn releasing_a_guard_twice_removes_nothing_else() {
    let mut lg = logger();
    lg.set_format("{context}");

    let g_a = lg.add_context("a", "1");
    let _g_b = lg.add_context("b", "2");
    lg.remove_context(g_a);
    lg.remove_context(g_a);
    let _ = lg.log(LogLevel::INFO, "", "tests.rs", 1);
    assert_eq!(strip_escapes(&lg.writer.take()), "[b=2] \n");
}

#[test]
fn sink_replacement_takes_effect_for_next_write() {
    let mut lg = logger();
    lg.set_format("{message}");

    let _ = lg.log(LogLevel::INFO, "first", "tests.rs", 1);
    assert!(lg.writer.contents_str().contains("first"));

    lg.set_writer(MemorySink::new()).unwrap();
    let _ = lg.log(LogLevel::INFO, "second", "tests.rs", 2);

    let output = lg.writer.take();
    assert!(output.contains("second"));
    assert!(!output.contains("first"));
}

#[test]
fn preset_formats() {
    let mut lg = logger();
    lg.set_identity(11, 2, "main");

    lg.use_simple_format();
    let _ = lg.log(LogLevel::WARN, "w", "f.rs", 3);
    assert_eq!(strip_escapes(&lg.writer.take()), "[!] w\n");

    lg.use_detailed_format();
    let _ = lg.log(LogLevel::ERROR, "e", "f.rs", 4);
    let detailed = strip_escapes(&lg.writer.take());
    assert!(detailed.starts_with("ERROR "));
    assert!(detailed.ends_with(" e\n"));

    lg.use_debug_format();
    let _ = lg.log(LogLevel::INFO, "d", "f.rs", 5);
    let debugged = strip_escapes(&lg.writer.take());
    assert!(debugged.contains(" INFO f.rs:5 d\n"));
}

#[test]
fn warn_color_wrap_is_exact() {
    let mut lg = logger();
    lg.set_format("{message}");

    let _ = lg.log(LogLevel::WARN, "heat", "tests.rs", 1);
    assert_eq!(lg.writer.take(), "\u{1b}[38;2;255;165;0mheat\n\u{1b}[39m");
}

#[test]
fn memory_sink_writes_always_succeed() {
    let mut lg = logger();
    assert!(lg.write_log(LogLevel::INFO, "sure", "f.rs", 1).is_ok());
    assert!(lg.log(LogLevel::WARN, "also", "f.rs", 2).is_ok());
    let output = lg.writer.take();
    assert!(output.contains("sure"));
    assert!(output.contains("also"));
}

#[test]
fn log_error_text() {
    let e = LogError::new("sink closed");
    assert_eq!(e.text(), "sink closed");
}

struct FailingSink;

impl LogSink for FailingSink {
    fn write_str(&mut self, _data: &str) -> Result<(), LogError> {
        Err(LogError::new("sink failure"))
    }

    fn flush(&mut self) -> Result<(), LogError> {
        Ok(())
    }
}

fn with_sink<S: LogSink>(writer: S) -> Logger<S> {
    Logger {
        verbose: false,
        min_level: LogLevel::DEBUG,
        template: None,
        context: Vec::new(),
        next_id: 0,
        pid: 0,
        thread_id: 0,
        thread_name: String::new(),
        writer,
    }
}

#[test]
fn write_failure_is_surfaced_once() {
    let mut lg = with_sink(FailingSink);
    let r = lg.write_log(LogLevel::INFO, "x", "f.rs", 1);
    assert_eq!(r.unwrap_err().text(), "sink failure");
}

struct FailingFlushSink {
    data: String,
}

impl LogSink for FailingFlushSink {
    fn write_str(&mut self, data: &str) -> Result<(), LogError> {
        self.data.push_str(data);
        Ok(())
    }

    fn flush(&mut self) -> Result<(), LogError> {
        Err(LogError::new("flush failure"))
    }
}

#[test]
fn flush_failure_is_surfaced_after_write() {
    let mut lg = with_sink(FailingFlushSink { data: String::new() });
    let r = lg.write_log(LogLevel::INFO, "kept", "f.rs", 1);
    assert_eq!(r.unwrap_err().text(), "flush failure");
    assert!(lg.writer.data.contains("kept"));
}
