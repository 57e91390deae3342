use hackerlog::format::context_block;
use hackerlog::format::render;
use hackerlog::ContextEntry;
use hackerlog::FormatPlaceholder;
use hackerlog::FormatTemplate;
use hackerlog::LogLevel;
use hackerlog::RenderContext;

fn plain_ctx(message: &str) -> RenderContext {
    RenderContext {
        level: LogLevel::INFO,
        message: message.to_string(),
        file: "main.rs".to_string(),
        line: 17,
        time: "12:34:56".to_string(),
        date: "2024-01-02".to_string(),
        datetime: "2024-01-02 12:34:56".to_string(),
        thread_name: "main".to_string(),
        thread_id: 7,
        pid: 4242,
    }
}

#[test]
fn parse_tokenizes_text_and_placeholders() {
    let t = FormatTemplate::parse("a{level}b");
    assert_eq!(t.parts.len(), 3);
    assert!(matches!(&t.parts[0], FormatPlaceholder::Text(s) if s == "a"));
    assert!(matches!(&t.parts[1], FormatPlaceholder::Level));
    assert!(matches!(&t.parts[2], FormatPlaceholder::Text(s) if s == "b"));
}

#[test]
fn parse_empty_template() {
    let t = FormatTemplate::parse("");
    assert_eq!(t.parts.len(), 0);
    let empty = FormatTemplate::new();
    assert_eq!(empty.parts.len(), 0);
}

#[test]
fn parse_all_placeholders() {
    let t = FormatTemplate::parse(
        "{level}{symbol}{message}{time}{date}{datetime}{thread}{thread_id}{pid}{file}{line}{context}",
    );
    assert_eq!(t.parts.len(), 12);
    assert!(matches!(&t.parts[0], FormatPlaceholder::Level));
    assert!(matches!(&t.parts[1], FormatPlaceholder::Symbol));
    assert!(matches!(&t.parts[2], FormatPlaceholder::Message));
    assert!(matches!(&t.parts[3], FormatPlaceholder::Time));
    assert!(matches!(&t.parts[4], FormatPlaceholder::Date));
    assert!(matches!(&t.parts[5], FormatPlaceholder::DateTime));
    assert!(matches!(&t.parts[6], FormatPlaceholder::ThreadName));
    assert!(matches!(&t.parts[7], FormatPlaceholder::ThreadId));
    assert!(matches!(&t.parts[8], FormatPlaceholder::ProcessId));
    assert!(matches!(&t.parts[9], FormatPlaceholder::File));
    assert!(matches!(&t.parts[10], FormatPlaceholder::Line));
    assert!(matches!(&t.parts[11], FormatPlaceholder::Context));
}

#[test]
fn unknown_placeholder_passes_through() {
    let t = FormatTemplate::parse("{bogus}");
    let out = render(&t, &plain_ctx("m"), &Vec::new());
    assert_eq!(out, "{bogus}");
}

#[test]
fn unterminated_brace_is_literal() {
    let t = FormatTemplate::parse("abc{def");
    let out = render(&t, &plain_ctx("m"), &Vec::new());
    assert_eq!(out, "abc{def");
}

#[test]
fn render_substitutes_every_placeholder() {
    let t = FormatTemplate::parse(
        "{level}|{symbol}|{message}|{time}|{date}|{datetime}|{thread}|{thread_id}|{pid}|{file}|{line}",
    );
    let out = render(&t, &plain_ctx("hi"), &Vec::new());
    assert_eq!(
        out,
        "INFO|[>]|hi|12:34:56|2024-01-02|2024-01-02 12:34:56|main|7|4242|main.rs|17"
    );
}

#[test]
fn render_repeated_placeholder_is_consistent() {
    let t = FormatTemplate::parse("{message} {message}");
    let out = render(&t, &plain_ctx("echo"), &Vec::new());
    assert_eq!(out, "echo echo");
}

#[test]
fn trailing_text_after_last_brace() {
    let t = FormatTemplate::parse("{message}!tail");
    let out = render(&t, &plain_ctx("x"), &Vec::new());
    assert_eq!(out, "x!tail");
}

fn entry(id: u64, key: &str, value: &str) -> ContextEntry {
    ContextEntry { id, key: key.to_string(), value: value.to_string() }
}

#[test]
fn context_block_empty_and_ordered() {
    assert_eq!(context_block(&Vec::new()), "");
    let one = vec![entry(0, "a", "1")];
    assert_eq!(context_block(&one), "[a=1] ");
    let two = vec![entry(0, "a", "1"), entry(1, "b", "2")];
    assert_eq!(context_block(&two), "[a=1, b=2] ");
    let three = vec![entry(0, "a", "1"), entry(1, "b", "2"), entry(2, "c", "3")];
    assert_eq!(context_block(&three), "[a=1, b=2, c=3] ");
}

#[test]
fn context_placeholder_renders_block() {
    let t = FormatTemplate::parse("{context}{message}");
    let entries = vec![entry(0, "user", "bob")];
    let out = render(&t, &plain_ctx("hi"), &entries);
    assert_eq!(out, "[user=bob] hi");
}
