use hackerlog::LogLevel;
use hackerlog::Rgb;

#[test]
fn test_log_levels() {
    assert!(LogLevel::ERROR > LogLevel::INFO);
    assert!(LogLevel::DEBUG < LogLevel::WARN);
}

#[test]
fn level_order_is_declaration_order() {
    let levels = [
        LogLevel::DEBUG,
        LogLevel::INFO,
        LogLevel::WARN,
        LogLevel::ERROR,
        LogLevel::SUCCESS,
        LogLevel::FAILURE,
    ];
    for i in 0..levels.len() {
        assert_eq!(levels[i].rank(), i as u8);
        for j in (i + 1)..levels.len() {
            assert!(levels[i] < levels[j]);
        }
    }
    // the order is not severity order: SUCCESS and FAILURE rank above ERROR
    assert!(LogLevel::SUCCESS > LogLevel::ERROR);
    assert!(LogLevel::FAILURE > LogLevel::SUCCESS);
}

#[test]
fn level_symbols() {
    assert_eq!(LogLevel::DEBUG.symbol(), "[#]");
    assert_eq!(LogLevel::INFO.symbol(), "[>]");
    assert_eq!(LogLevel::WARN.symbol(), "[!]");
    assert_eq!(LogLevel::ERROR.symbol(), "[x]");
    assert_eq!(LogLevel::SUCCESS.symbol(), "[+]");
    assert_eq!(LogLevel::FAILURE.symbol(), "[-]");
}

#[test]
fn level_names() {
    assert_eq!(LogLevel::DEBUG.name(), "DEBUG");
    assert_eq!(LogLevel::FAILURE.name(), "FAILURE");
}

#[test]
fn level_colors() {
    assert_eq!(LogLevel::INFO.color(), Rgb { red: 255, green: 255, blue: 255 });
    assert_eq!(LogLevel::DEBUG.color(), Rgb { red: 100, green: 100, blue: 255 });
    assert_eq!(LogLevel::WARN.color(), Rgb { red: 255, green: 165, blue: 0 });
    assert_eq!(LogLevel::ERROR.color(), Rgb { red: 255, green: 0, blue: 0 });
    assert_eq!(LogLevel::SUCCESS.color(), Rgb { red: 0, green: 255, blue: 0 });
    assert_eq!(LogLevel::FAILURE.color(), Rgb { red: 139, green: 0, blue: 0 });
}

#[test]
fn threshold_follows_declared_order() {
    let mut lg = hackerlog::logger();
    lg.min_level(LogLevel::WARN);
    assert!(!lg.should_log(LogLevel::DEBUG));
    assert!(!lg.should_log(LogLevel::INFO));
    assert!(lg.should_log(LogLevel::WARN));
    assert!(lg.should_log(LogLevel::ERROR));
    assert!(lg.should_log(LogLevel::SUCCESS));
    assert!(lg.should_log(LogLevel::FAILURE));
    // threshold ERROR still admits SUCCESS and FAILURE
    lg.min_level(LogLevel::ERROR);
    assert!(lg.should_log(LogLevel::SUCCESS));
    assert!(lg.should_log(LogLevel::FAILURE));
    assert!(!lg.should_log(LogLevel::WARN));
}
