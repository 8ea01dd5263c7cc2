//! Built-in loggers.

pub mod pretty;
