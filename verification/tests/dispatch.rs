use arbitrary_logger::Dispatcher;
use arbitrary_logger::Level;
use arbitrary_logger::LevelFilter;
use arbitrary_logger::filtered::Filtered;
use arbitrary_logger::logger::pretty::Pretty;

#[test]
fn log() {
    let mut dispatcher = Dispatcher::new();
    arbitrary_logger::try_init_with_filters(
        &mut dispatcher,
        Pretty::default(),
        LevelFilter::Trace,
        Filtered::new(&[
            "arbitrary_logger::tests::hidden=warn",
            "arbitrary_logger::tests::nested::hidden=info",
        ]),
    );
    let handler = dispatcher.handler.as_ref().unwrap();

    handler.log("arbitrary_logger::tests", Level::Trace, "hello world");
    handler.log("arbitrary_logger::tests", Level::Debug, "hello world");
    handler.log("arbitrary_logger::tests", Level::Info, "hello world");
    handler.log("arbitrary_logger::tests", Level::Warn, "hello world");
    handler.log("arbitrary_logger::tests", Level::Error, "hello world");

    handler.log("arbitrary_logger::tests::hidden", Level::Debug, "work!");
    handler.log("arbitrary_logger::tests::hidden::other", Level::Debug, "work!");
    handler.log("arbitrary_logger::tests::nested::hidden", Level::Debug, "work!");
    handler.log("arbitrary_logger::tests::nested", Level::Debug, "work!");

    // the filtered targets are suppressed, the others pass
    assert!(!handler.should_print("arbitrary_logger::tests::hidden", Level::Debug));
    assert!(!handler.should_print("arbitrary_logger::tests::hidden::other", Level::Debug));
    assert!(!handler.should_print("arbitrary_logger::tests::nested::hidden", Level::Debug));
    assert!(handler.should_print("arbitrary_logger::tests::nested", Level::Debug));
    assert!(handler.should_print("arbitrary_logger::tests", Level::Trace));
}

#[test]
fn filtered_target_is_suppressed_end_to_end() {
    let mut dispatcher = Dispatcher::new();
    arbitrary_logger::try_init_with_filters(
        &mut dispatcher,
        Pretty::default(),
        LevelFilter::Trace,
        Filtered::new(&["mod_a=warn"]),
    );
    let handler = dispatcher.handler.as_ref().unwrap();
    // Debug is at least as verbose as the Warn threshold, so the matching
    // rule suppresses the record
    assert!(!handler.should_print("mod_a::sub", Level::Debug));
    // a more severe record passes
    assert!(handler.should_print("mod_a::sub", Level::Error));
    // an unrelated target passes at any level
    assert!(handler.should_print("mod_b::sub", Level::Trace));
}

#[test]
fn min_level_gates_without_filters() {
    let mut dispatcher = Dispatcher::new();
    arbitrary_logger::try_init(&mut dispatcher, Pretty::default(), LevelFilter::Info);
    let handler = dispatcher.handler.as_ref().unwrap();
    assert!(handler.should_print("any::target", Level::Error));
    assert!(handler.should_print("any::target", Level::Warn));
    assert!(handler.should_print("any::target", Level::Info));
    assert!(!handler.should_print("any::target", Level::Debug));
    assert!(!handler.should_print("any::target", Level::Trace));
}

#[test]
fn second_initialization_fails_and_keeps_the_first() {
    let mut dispatcher = Dispatcher::new();
    let first = Pretty::builder().with_level().build();
    assert!(arbitrary_logger::init(&mut dispatcher, first, LevelFilter::Info).is_ok());

    let second = Pretty::builder().without_level().build();
    assert!(arbitrary_logger::init(&mut dispatcher, second, LevelFilter::Trace).is_err());

    let handler = dispatcher.handler.as_ref().unwrap();
    assert!(handler.fmt.level);
    assert_eq!(handler.min_level, LevelFilter::Info);
    assert!(handler.filters.is_none());
}

#[test]
fn off_threshold_suppresses_everything_matching() {
    let mut dispatcher = Dispatcher::new();
    arbitrary_logger::try_init_with_filters(
        &mut dispatcher,
        Pretty::default(),
        LevelFilter::Trace,
        Filtered::new(&["noisy=bogus"]),
    );
    let handler = dispatcher.handler.as_ref().unwrap();
    // an unrecognized level parses to Off, which every record reaches
    assert!(!handler.should_print("noisy::sub", Level::Error));
    assert!(handler.should_print("calm::sub", Level::Error));
}

#[test]
fn enabled_matches_min_level() {
    let mut dispatcher = Dispatcher::new();
    arbitrary_logger::try_init(&mut dispatcher, Pretty::default(), LevelFilter::Warn);
    let handler = dispatcher.handler.as_ref().unwrap();
    assert!(handler.enabled(Level::Error));
    assert!(handler.enabled(Level::Warn));
    assert!(!handler.enabled(Level::Info));
    handler.flush();
}

#[test]
fn level_ranks_are_ordered() {
    assert!(Level::Error.verbosity() < Level::Warn.verbosity());
    assert!(Level::Warn.verbosity() < Level::Info.verbosity());
    assert!(Level::Info.verbosity() < Level::Debug.verbosity());
    assert!(Level::Debug.verbosity() < Level::Trace.verbosity());
    assert_eq!(LevelFilter::Off.verbosity(), 0);
    assert_eq!(LevelFilter::Trace.verbosity(), Level::Trace.verbosity());
}
