use my_rust_toolkit::logger::get_guard_from_init_tracing_subscriber_and_eyre;
use my_rust_toolkit::logger::ErrorFromInitTracingSubscriberAndEyre;
use my_rust_toolkit::logger::Rotation;

#[test]
fn second_reporter_install_fails_before_subscriber_install() {
    let first = get_guard_from_init_tracing_subscriber_and_eyre(
        "/tmp/my_rust_toolkit_test_reporter/logs",
        Ok(()),
        "first",
        "log",
        Rotation::MINUTELY,
        true,
        true,
    );
    assert!(matches!(first, Ok(_)));

    let second = get_guard_from_init_tracing_subscriber_and_eyre(
        "/tmp/my_rust_toolkit_test_reporter/logs",
        Ok(()),
        "second",
        "log",
        Rotation::MINUTELY,
        true,
        true,
    );
    assert!(matches!(
        second,
        Err(ErrorFromInitTracingSubscriberAndEyre::EyreInstallFailure(_))
    ));
}
