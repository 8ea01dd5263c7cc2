//! Color configuration: which color paints each semantic part of a record.
use vstd::prelude::*;

use crate::Level;

verus! {

/// A foreground color the sink can be asked to set: a named terminal color
/// or an 8-bit palette index.
#[derive(Clone, Copy, Debug, PartialEq, Eq, Structural)]
pub enum Color {
    Red,
    Yellow,
    Green,
    Cyan,
    Blue,
    Ansi256(u8),
}

/// Configuration for the level colors.
#[derive(Clone, Copy, Debug, PartialEq, Eq, Structural)]
pub struct LevelColorConfig {
    pub error: Color,
    pub warn: Color,
    pub info: Color,
    pub debug: Color,
    pub trace: Color,
}

/// The default level palette: error red, warn yellow, info green, debug
/// cyan, trace blue.
pub open spec fn spec_default_level_colors() -> LevelColorConfig {
    LevelColorConfig {
        error: Color::Red,
        warn: Color::Yellow,
        info: Color::Green,
        debug: Color::Cyan,
        trace: Color::Blue,
    }
}

/// The default record palette: the default level colors, with target,
/// timestamp, continuation and message on fixed 8-bit palette entries.
pub open spec fn spec_default_colors() -> RecordColorConfig {
    RecordColorConfig {
        level: spec_default_level_colors(),
        target: Color::Ansi256(131),
        timestamp: Color::Ansi256(243),
        continuation: Color::Ansi256(237),
        message: Color::Ansi256(231),
    }
}

impl Default for LevelColorConfig {
    /// Error red, warn yellow, info green, debug cyan, trace blue.
    fn default() -> (r: Self)
        ensures
            r == spec_default_level_colors(),
    {
        LevelColorConfig {
            error: Color::Red,
            warn: Color::Yellow,
            info: Color::Green,
            debug: Color::Cyan,
            trace: Color::Blue,
        }
    }
}

/// The color a level color configuration assigns to one record level.
pub open spec fn spec_level_color(c: LevelColorConfig, l: Level) -> Color {
    match l {
        Level::Error => c.error,
        Level::Warn => c.warn,
        Level::Info => c.info,
        Level::Debug => c.debug,
        Level::Trace => c.trace,
    }
}

impl LevelColorConfig {
    /// The color assigned to one record level.
    pub fn color_for(&self, l: Level) -> (r: Color)
        ensures
            r == spec_level_color(*self, l),
    {
        match l {
            Level::Error => self.error,
            Level::Warn => self.warn,
            Level::Info => self.info,
            Level::Debug => self.debug,
            Level::Trace => self.trace,
        }
    }
}

/// Configuration for each part of a record.
#[derive(Clone, Copy, Debug, PartialEq, Eq, Structural)]
pub struct RecordColorConfig {
    pub level: LevelColorConfig,
    pub target: Color,
    pub timestamp: Color,
    pub continuation: Color,
    pub message: Color,
}

impl Default for RecordColorConfig {
    /// Level colors as their default; target, timestamp, continuation and
    /// message on fixed 8-bit palette entries.
    fn default() -> (r: Self)
        ensures
            r == spec_default_colors(),
    {
        RecordColorConfig {
            level: LevelColorConfig::default(),
            target: Color::Ansi256(131),
            timestamp: Color::Ansi256(243),
            continuation: Color::Ansi256(237),
            message: Color::Ansi256(231),
        }
    }
}

} // verus!
