use arbitrary_logger::Level;
use arbitrary_logger::LevelFilter;
use arbitrary_logger::filtered::Filtered;
use arbitrary_logger::filtered::parse_level;

#[test]
fn new_filtered() {
    let filtered = Filtered::new(&["tokio::io=trace", "mio=debug"]);

    for (ignored, level) in &[
        ("mio::uds::spam", Level::Trace),
        ("tokio::io::Read", Level::Trace),
    ] {
        assert!(filtered.apply(ignored, *level), "{}: {:?}", ignored, level);
    }

    for (allowed, level) in &[
        ("tokio", Level::Info),
        ("mionext", Level::Trace),
        ("mio::foo", Level::Warn),
        ("tokio::sync::mutex", Level::Debug),
        ("tokio_util::io", Level::Warn),
    ] {
        assert!(!filtered.apply(allowed, *level), "{}: {:?}", allowed, level);
    }
}

#[test]
fn malformed_rules_are_dropped() {
    let filtered = Filtered::new(&["nokey", "=debug", "", "good=warn"]);
    let entries = filtered.filtered();
    assert_eq!(entries.len(), 1);
    assert_eq!(entries[0].0, "good");
    assert_eq!(entries[0].1, LevelFilter::Warn);
}

#[test]
fn empty_value_parses_to_off() {
    let filtered = Filtered::new(&["quiet="]);
    let entries = filtered.filtered();
    assert_eq!(entries.len(), 1);
    assert_eq!(entries[0].0, "quiet");
    assert_eq!(entries[0].1, LevelFilter::Off);
}

#[test]
fn level_parsing_is_case_insensitive() {
    let upper = Filtered::from_str("baz=DEBUG");
    let mixed = Filtered::from_str("baz=Debug");
    let lower = Filtered::from_str("baz=debug");
    for f in [&upper, &mixed, &lower] {
        let entries = f.filtered();
        assert_eq!(entries.len(), 1);
        assert_eq!(entries[0].0, "baz");
        assert_eq!(entries[0].1, LevelFilter::Debug);
    }
}

#[test]
fn parse_level_tokens() {
    assert_eq!(parse_level("trace"), LevelFilter::Trace);
    assert_eq!(parse_level("TRACE"), LevelFilter::Trace);
    assert_eq!(parse_level("debug"), LevelFilter::Debug);
    assert_eq!(parse_level("info"), LevelFilter::Info);
    assert_eq!(parse_level("Warn"), LevelFilter::Warn);
    assert_eq!(parse_level("error"), LevelFilter::Error);
    assert_eq!(parse_level("nonsense"), LevelFilter::Off);
    assert_eq!(parse_level(""), LevelFilter::Off);
}

#[test]
fn prefix_matches_end_at_module_boundaries() {
    let filtered = Filtered::new(&["tokio=trace"]);
    // an exact match needs no module separator
    assert!(filtered.apply("tokio", Level::Trace));
    // a longer name without a separator is no match
    assert!(!filtered.apply("tokioX", Level::Trace));
    // a sub-namespace matches on the prefix up to the boundary
    assert!(filtered.apply("tokio::sync", Level::Trace));
    // a different module family never matches
    assert!(!filtered.apply("tokio_util::io", Level::Trace));

    // a prefix that stops inside a segment is no match either
    let partial = Filtered::new(&["tokio::i=trace"]);
    assert!(!partial.apply("tokio::io", Level::Trace));
    assert!(!partial.apply("tokio::io::Read", Level::Trace));
    assert!(partial.apply("tokio::i::x", Level::Trace));
}

#[test]
fn threshold_gates_verbosity() {
    let filtered = Filtered::new(&["mod_a=warn"]);
    assert!(!filtered.apply("mod_a::sub", Level::Error));
    // a record at exactly the threshold is already suppressed
    assert!(filtered.apply("mod_a::sub", Level::Warn));
    assert!(filtered.apply("mod_a::sub", Level::Info));
    assert!(filtered.apply("mod_a::sub", Level::Debug));
    assert!(filtered.apply("mod_a::sub", Level::Trace));
}

#[test]
fn later_duplicate_key_wins() {
    let filtered = Filtered::from_str("a::b=debug,a::b=trace");
    let entries = filtered.filtered();
    assert_eq!(entries.len(), 1);
    assert_eq!(entries[0].0, "a::b");
    assert_eq!(entries[0].1, LevelFilter::Trace);
}

#[test]
fn from_str_with_trailing_segment() {
    let filtered = Filtered::from_str("tokio=trace, ");
    let entries = filtered.filtered();
    assert_eq!(entries.len(), 1);
    assert_eq!(entries[0].0, "tokio");
    assert_eq!(entries[0].1, LevelFilter::Trace);
}

#[test]
fn default_table_is_empty_and_suppresses_nothing() {
    let filtered = Filtered::default();
    assert!(filtered.filtered().is_empty());
    assert!(!filtered.apply("anything::at::all", Level::Trace));
}
