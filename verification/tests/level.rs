use my_rust_toolkit::logger::Level;

#[test]
pub fn compare_level() {
    assert_eq!("TRACE", format!("{}", Level::TRACE));
    assert_eq!("DEBUG", format!("{}", Level::DEBUG));
    assert_eq!("INFO", format!("{}", Level::INFO));
    assert_eq!("WARN", format!("{}", Level::WARN));
    assert_eq!("ERROR", format!("{}", Level::ERROR));
}
