use my_rust_toolkit::logger::get_guard_from_init_tracing_subscriber_and_eyre;
use my_rust_toolkit::logger::Rotation;

#[test]
fn fresh_logs_dir_returns_guard() {
    let result = get_guard_from_init_tracing_subscriber_and_eyre(
        "/tmp/my_rust_toolkit_test_fresh/logs",
        Ok(()),
        "myapp",
        "log",
        Rotation::HOURLY,
        false,
        false,
    );
    assert!(matches!(result, Ok(_)));
}
