use arbitrary_logger::Level;
use arbitrary_logger::format::sink::Op;
use arbitrary_logger::format::time::TimeSource;
use arbitrary_logger::format::time::TimestampStyle;
use arbitrary_logger::format::time::Timestamp;
use arbitrary_logger::format::time::Uptime;
use arbitrary_logger::format::time::render_time;
use arbitrary_logger::format::time::scale;
use arbitrary_logger::format::time::u64_to_dec;
use arbitrary_logger::logger::pretty::Pretty;

fn text_of(ops: &[Op]) -> String {
    let mut out = String::new();
    for op in ops {
        if let Op::Text(s) = op {
            out.push_str(s);
        }
    }
    out
}

#[test]
fn decimal_rendering() {
    assert_eq!(u64_to_dec(0), "0");
    assert_eq!(u64_to_dec(7), "7");
    assert_eq!(u64_to_dec(10), "10");
    assert_eq!(u64_to_dec(1234567890), "1234567890");
    assert_eq!(u64_to_dec(u64::MAX), "18446744073709551615");
}

#[test]
fn scale_exact_values() {
    assert_eq!(scale(987654321, 3), 987);
    assert_eq!(scale(987654321, 9), 987654321);
    assert_eq!(scale(987654321, 12), 987654321);
    assert_eq!(scale(5, 1), 0);
    assert_eq!(scale(999999999, 0), 0);
}

#[test]
fn scale_is_monotonic_in_digits() {
    let nanos = 123456789;
    let mut prev = scale(nanos, 1);
    for digits in 2..=9 {
        let next = scale(nanos, digits);
        assert!(prev <= next, "digits {}: {} > {}", digits, prev, next);
        prev = next;
    }
    assert_eq!(scale(nanos, 10), nanos);
    assert_eq!(scale(nanos, 11), nanos);
}

#[test]
fn time_text_styles() {
    assert_eq!(render_time(TimestampStyle::Whole, 1234567, 999999999), "1234567");
    assert_eq!(render_time(TimestampStyle::Fractional(0), 5, 999999999), "5");
    assert_eq!(render_time(TimestampStyle::Fractional(3), 12, 987654321), "12.987");
    assert_eq!(render_time(TimestampStyle::Fractional(9), 12, 987654321), "12.987654321");
    assert_eq!(render_time(TimestampStyle::Fractional(1), 0, 99999999), "0.0");
}

#[test]
fn wall_clock_renders_digits() {
    let ts = Timestamp::new(TimestampStyle::Whole);
    let text = ts.render().expect("clock after epoch");
    assert!(!text.is_empty());
    assert!(text.chars().all(|c| c.is_ascii_digit()));
}

#[test]
fn uptime_is_suffixed_with_s() {
    let up = Uptime::now(TimestampStyle::Whole);
    let text = up.render().expect("uptime never fails");
    assert!(text.ends_with('s'));
    assert!(text[..text.len() - 1].chars().all(|c| c.is_ascii_digit()));
}

#[test]
fn plain_render_is_deterministic_and_paint_free() {
    let pretty = Pretty::builder()
        .with_level()
        .with_target()
        .with_continuation(Some("|"))
        .without_color()
        .build();
    let first = pretty.render_ops("mod_a", Level::Info, "hello", Some("42s"));
    let second = pretty.render_ops("mod_a", Level::Info, "hello", Some("42s"));
    assert_eq!(first, second);
    assert!(first.iter().all(|op| matches!(op, Op::Text(_))));
    assert_eq!(text_of(&first), "INFO  [mod_a] 42s\n| hello\n");
}

#[test]
fn colored_render_brackets_every_field() {
    let pretty = Pretty::builder()
        .with_level()
        .with_target()
        .with_continuation(None)
        .with_color()
        .build();
    let ops = pretty.render_ops("mod_a", Level::Error, "boom", Some("7s"));
    let mut open = false;
    let mut pairs = 0;
    for op in &ops {
        match op {
            Op::SetFg(_) => {
                assert!(!open, "set while a color is already set");
                open = true;
            }
            Op::Reset => {
                assert!(open, "reset without a set");
                open = false;
                pairs += 1;
            }
            Op::Text(_) => {}
        }
    }
    assert!(!open, "a color left set at the end of the record");
    // level, target, timestamp, continuation and message are all colored
    assert_eq!(pairs, 5);
    // the text is the same with and without coloring
    assert_eq!(text_of(&ops), "ERROR [mod_a] 7s\n\u{2937} boom\n");
}

#[test]
fn render_stage_toggles() {
    let bare = Pretty::builder().without_color().build();
    let ops = bare.render_ops("mod_a", Level::Warn, "msg", None);
    assert_eq!(text_of(&ops), " msg\n");

    let with_level = Pretty::builder().with_level().without_color().build();
    let ops = with_level.render_ops("mod_a", Level::Warn, "msg", None);
    assert_eq!(text_of(&ops), "WARN  msg\n");

    let with_target = Pretty::builder().with_target().without_color().build();
    let ops = with_target.render_ops("mod_a", Level::Warn, "msg", None);
    assert_eq!(text_of(&ops), " [mod_a] msg\n");
}

#[test]
fn level_names_are_padded_to_five() {
    let pretty = Pretty::builder().with_level().without_color().build();
    let expected = [
        (Level::Error, "ERROR"),
        (Level::Warn, "WARN "),
        (Level::Info, "INFO "),
        (Level::Debug, "DEBUG"),
        (Level::Trace, "TRACE"),
    ];
    for (level, name) in expected {
        let ops = pretty.render_ops("t", level, "m", None);
        let text = text_of(&ops);
        assert!(text.starts_with(name), "{:?}: {:?}", level, text);
        assert_eq!(name.len(), 5);
    }
}

#[test]
fn default_continuation_glyph() {
    let pretty = Pretty::builder().with_continuation(None).without_color().build();
    let ops = pretty.render_ops("t", Level::Info, "m", None);
    assert_eq!(text_of(&ops), "\n\u{2937} m\n");
    assert_eq!(arbitrary_logger::DEFAULT_CONTINUATION, "\u{2937}");
}

#[test]
fn uptime_source_always_renders() {
    let source = TimeSource::Uptime(Uptime::now(TimestampStyle::Fractional(2)));
    assert!(source.render().is_ok());
}

#[test]
fn uptime_from_instant_uses_full_precision() {
    let up = Uptime::from(std::time::Instant::now());
    let text = up.render().expect("uptime never fails");
    assert!(text.ends_with('s'));
    assert!(text.contains('.'));
}

#[test]
fn render_to_stdout_succeeds() {
    let pretty = Pretty::builder()
        .with_level()
        .with_target()
        .unix_timestamp(Some(TimestampStyle::Fractional(3)))
        .without_color()
        .build();
    assert!(pretty.render("mod_a", Level::Info, "written as one buffer").is_ok());

    let colored = Pretty::builder().with_level().uptime().with_color().build();
    assert!(colored.render("mod_a", Level::Warn, "colored path").is_ok());
}

#[test]
fn builder_defaults_and_build() {
    let pretty = Pretty::builder().build();
    assert!(!pretty.level);
    assert!(!pretty.target);
    assert!(pretty.use_color);
    assert!(pretty.continuation.is_none());
    assert!(pretty.time.is_none());

    let pretty = Pretty::default();
    assert!(pretty.level);
    assert!(pretty.target);
    assert!(pretty.use_color);
    assert!(pretty.continuation.is_none());
    assert!(pretty.time.is_none());
}
