use vstd::prelude::*;

pub mod filtered;
pub mod format;
pub mod logger;

verus! {

/// Default continuation glyph: a single arrow character.
pub const DEFAULT_CONTINUATION: &'static str = "⤷";

/// Severity of a single log record, from most severe (`Error`) to most
/// verbose (`Trace`).
#[derive(Clone, Copy, Debug, PartialEq, Eq, Structural)]
pub enum Level {
    Error,
    Warn,
    Info,
    Debug,
    Trace,
}

/// Verbosity rank of a record level: higher means more verbose.
pub open spec fn level_verbosity(l: Level) -> int {
    match l {
        Level::Error => 1,
        Level::Warn => 2,
        Level::Info => 3,
        Level::Debug => 4,
        Level::Trace => 5,
    }
}

impl Level {
    /// Verbosity rank as an executable value, `1` (`Error`) through `5` (`Trace`).
    pub fn verbosity(self) -> (n: u8)
        ensures
            n as int == level_verbosity(self),
    {
        match self {
            Level::Error => 1,
            Level::Warn => 2,
            Level::Info => 3,
            Level::Debug => 4,
            Level::Trace => 5,
        }
    }
}

/// Threshold for log output: `Off` admits nothing, `Trace` admits everything.
#[derive(Clone, Copy, Debug, PartialEq, Eq, Structural)]
pub enum LevelFilter {
    Off,
    Error,
    Warn,
    Info,
    Debug,
    Trace,
}

/// Verbosity rank of a threshold: a record passes a threshold exactly when
/// the record's rank is at most the threshold's rank.
pub open spec fn filter_verbosity(f: LevelFilter) -> int {
    match f {
        LevelFilter::Off => 0,
        LevelFilter::Error => 1,
        LevelFilter::Warn => 2,
        LevelFilter::Info => 3,
        LevelFilter::Debug => 4,
        LevelFilter::Trace => 5,
    }
}

impl LevelFilter {
    /// Verbosity rank as an executable value, `0` (`Off`) through `5` (`Trace`).
    pub fn verbosity(self) -> (n: u8)
        ensures
            n as int == filter_verbosity(self),
    {
        match self {
            LevelFilter::Off => 0,
            LevelFilter::Error => 1,
            LevelFilter::Warn => 2,
            LevelFilter::Info => 3,
            LevelFilter::Debug => 4,
            LevelFilter::Trace => 5,
        }
    }
}

/// The installed handler: a formatter, an optional filter table, and the
/// minimum-level gate.
pub struct Logger<F: format::Print> {
    pub fmt: F,
    pub filters: Option<filtered::Filtered>,
    pub min_level: LevelFilter,
}

impl<F: format::Print> Logger<F> {
    /// Whether records at `level` pass the minimum-level gate: the record
    /// is no more verbose than that threshold allows.
    pub open spec fn spec_enabled(&self, level: Level) -> bool {
        level_verbosity(level) <= filter_verbosity(self.min_level)
    }

    /// Whether a record for `target` at `level` is printed: it passes the
    /// minimum-level gate, and no filter rule suppresses it.
    pub open spec fn spec_should_print(&self, target: Seq<char>, level: Level) -> bool {
        self.spec_enabled(level) && match self.filters {
            Some(f) => !filtered::spec_suppressed(f@, target, level),
            None => true,
        }
    }

    /// Whether records at `level` pass the minimum-level gate.
    pub fn enabled(&self, level: Level) -> (r: bool)
        ensures
            r == self.spec_enabled(level),
    {
        level.verbosity() <= self.min_level.verbosity()
    }

    /// The decision for one record: printed exactly when the level gate and the
    /// filter table let it pass.
    pub fn should_print(&self, target: &str, level: Level) -> (r: bool)
        ensures
            r == self.spec_should_print(target@, level),
    {
        if !self.enabled(level) {
            return false;
        }
        match &self.filters {
            Some(f) => !f.apply(target, level),
            None => true,
        }
    }

    /// Print the record through the formatter, discarding any render error:
    /// logging is best effort and never fails the caller.
    pub fn print(&self, target: &str, level: Level, message: &str) {
        let _ = self.fmt.print(target, level, message);
    }

    /// Handle one record: print it exactly when `should_print` says so.
    pub fn log(&self, target: &str, level: Level, message: &str) {
        if self.should_print(target, level) {
            self.print(target, level, message);
        }
    }

    /// Nothing is buffered across records, so there is nothing to flush.
    pub fn flush(&self) {
    }
}

/// Error returned when a handler is already installed.
#[derive(Clone, Copy, Debug, PartialEq, Eq, Structural)]
pub struct AlreadyInitializedError;

/// The one slot for the process-wide handler: empty until the first
/// successful initialization, then fixed for good.
pub struct Dispatcher<F: format::Print> {
    pub handler: Option<Logger<F>>,
}

impl<F: format::Print> Dispatcher<F> {
    /// An empty dispatcher: no handler installed yet.
    pub fn new() -> (r: Self)
        ensures
            r.handler is None,
    {
        Dispatcher { handler: None }
    }
}

/// Init a logger with a minimum level and no filters. The first successful
/// call installs the handler; every later call fails and changes nothing.
pub fn init<F: format::Print>(
    dispatcher: &mut Dispatcher<F>,
    format: F,
    min_level: LevelFilter,
) -> (r: Result<(), AlreadyInitializedError>)
    ensures
        old(dispatcher).handler is None ==> r is Ok && (final(dispatcher).handler matches Some(l)
            && l.fmt == format && l.min_level == min_level && l.filters is None),
        old(dispatcher).handler is Some ==> r is Err && *final(dispatcher) == *old(dispatcher),
{
    match dispatcher.handler {
        Some(_) => Err(AlreadyInitializedError),
        None => {
            dispatcher.handler = Some(Logger { fmt: format, filters: None, min_level });
            Ok(())
        },
    }
}

/// Init a logger with a minimum level and filters. The first successful
/// call installs the handler; every later call fails and changes nothing.
pub fn init_with_filters<F: format::Print>(
    dispatcher: &mut Dispatcher<F>,
    format: F,
    min_level: LevelFilter,
    filters: filtered::Filtered,
) -> (r: Result<(), AlreadyInitializedError>)
    ensures
        old(dispatcher).handler is None ==> r is Ok && (final(dispatcher).handler matches Some(l)
            && l.fmt == format && l.min_level == min_level && (l.filters matches Some(f) && f
            == filters)),
        old(dispatcher).handler is Some ==> r is Err && *final(dispatcher) == *old(dispatcher),
{
    match dispatcher.handler {
        Some(_) => Err(AlreadyInitializedError),
        None => {
            dispatcher.handler = Some(Logger { fmt: format, filters: Some(filters), min_level });
            Ok(())
        },
    }
}

/// Init a logger with a minimum level and filters, ignoring any errors.
pub fn try_init_with_filters<F: format::Print>(
    dispatcher: &mut Dispatcher<F>,
    format: F,
    min_level: LevelFilter,
    filters: filtered::Filtered,
)
    ensures
        old(dispatcher).handler is None ==> (final(dispatcher).handler matches Some(l) && l.fmt
            == format && l.min_level == min_level && (l.filters matches Some(f) && f == filters)),
        old(dispatcher).handler is Some ==> *final(dispatcher) == *old(dispatcher),
{
    let _ = init_with_filters(dispatcher, format, min_level, filters);
}

/// Init a logger with a minimum level and no filters, ignoring any errors.
pub fn try_init<F: format::Print>(
    dispatcher: &mut Dispatcher<F>,
    format: F,
    min_level: LevelFilter,
)
    ensures
        old(dispatcher).handler is None ==> (final(dispatcher).handler matches Some(l) && l.fmt
            == format && l.min_level == min_level && l.filters is None),
        old(dispatcher).handler is Some ==> *final(dispatcher) == *old(dispatcher),
{
    let _ = init(dispatcher, format, min_level);
}

} // verus!
