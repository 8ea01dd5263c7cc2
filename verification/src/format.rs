//! Formatting: the print interface, time rendering, colors, and the
//! record-writing pipeline.
use vstd::prelude::*;

pub mod color;
pub mod sink;
pub mod time;
pub mod writer;

pub use color::Color;
pub use color::LevelColorConfig;
pub use color::RecordColorConfig;
pub use time::FormatTime;
pub use time::TimeSource;
pub use time::Timestamp;
pub use time::TimestampStyle;
pub use time::Uptime;
pub use writer::Writer;
pub use writer::new_writer;

verus! {

/// Error for a failed render: a clock read or a sink write went wrong.
/// The record is dropped for that write; nothing is retried.
#[derive(Clone, Copy, Debug, PartialEq, Eq, Structural)]
pub struct RenderError;

/// Primary trait for printing a log record.
pub trait Print: Send + Sync {
    /// Print this log record.
    fn print(&self, target: &str, level: crate::Level, message: &str) -> Result<(), RenderError>;
}

} // verus!
