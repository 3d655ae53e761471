use my_rust_toolkit::logger::build_file_sink;
use my_rust_toolkit::logger::ErrorFromInitTracingSubscriberAndEyre;
use my_rust_toolkit::logger::Rotation;
use my_rust_toolkit::plan::{layers_contain_console, plan_layers, LayerKind};

#[test]
fn file_sink_on_fresh_dir_succeeds() {
    let sink = build_file_sink(
        "/tmp/my_rust_toolkit_test_sink/fresh",
        "app",
        "log",
        Rotation::HOURLY,
    );
    assert!(matches!(sink, Ok(_)));
}

#[test]
fn logs_dir_occupied_by_file_yields_appender_init_error() {
    // A sink with the never-rolling cadence writes the plain `occ.log`
    // filename; the sink itself creates the directory and that file.
    let occupant = build_file_sink(
        "/tmp/my_rust_toolkit_test_sink/occupied",
        "occ",
        "log",
        Rotation::NEVER,
    );
    assert!(matches!(occupant, Ok(_)));

    // Rooting a second sink at the path of that plain file must fail: no
    // directory can be created where a file already stands.
    let blocked = build_file_sink(
        "/tmp/my_rust_toolkit_test_sink/occupied/occ.log",
        "occ",
        "log",
        Rotation::NEVER,
    );
    assert!(matches!(
        blocked,
        Err(ErrorFromInitTracingSubscriberAndEyre::AppenderInitError(_))
    ));
}

#[test]
fn io_error_wraps_into_the_io_variant() {
    let underlying = std::io::Error::new(std::io::ErrorKind::PermissionDenied, "denied");
    let wrapped = ErrorFromInitTracingSubscriberAndEyre::from_io_error(underlying);
    assert!(matches!(
        wrapped,
        ErrorFromInitTracingSubscriberAndEyre::IOError(_)
    ));
}

#[test]
fn plan_without_console_holds_filter_context_and_file_sink() {
    let layers = plan_layers(false);
    assert_eq!(
        layers,
        vec![
            LayerKind::SeverityFilter,
            LayerKind::ErrorContext,
            LayerKind::FileSink,
        ]
    );
    assert!(!layers_contain_console(&layers));
}

#[test]
fn plan_with_console_appends_the_console_sink() {
    let layers = plan_layers(true);
    assert_eq!(
        layers,
        vec![
            LayerKind::SeverityFilter,
            LayerKind::ErrorContext,
            LayerKind::FileSink,
            LayerKind::ConsoleSink,
        ]
    );
    assert!(layers_contain_console(&layers));
}
