use my_rust_toolkit::logger::get_guard_from_init_tracing_subscriber_and_eyre;
use my_rust_toolkit::logger::ErrorFromInitTracingSubscriberAndEyre;
use my_rust_toolkit::logger::Rotation;

#[test]
fn second_install_is_deterministically_rejected() {
    let first = get_guard_from_init_tracing_subscriber_and_eyre(
        "/tmp/my_rust_toolkit_test_twice/logs",
        Ok(()),
        "first",
        "log",
        Rotation::DAILY,
        false,
        false,
    );
    assert!(matches!(first, Ok(_)));

    let second = get_guard_from_init_tracing_subscriber_and_eyre(
        "/tmp/my_rust_toolkit_test_twice/logs",
        Ok(()),
        "second",
        "log",
        Rotation::DAILY,
        false,
        false,
    );
    assert!(matches!(
        second,
        Err(ErrorFromInitTracingSubscriberAndEyre::SubscriberInstallError(_))
    ));
}
