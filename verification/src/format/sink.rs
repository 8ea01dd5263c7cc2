//! Trusted boundary to the color-capable output sink.
//!
//! The sink is modelled as the sequence of operations applied to an
//! in-memory buffer: paint operations (set a foreground color, reset it)
//! and text writes. How a paint operation is realized in bytes is the
//! sink's business; a buffer without color support realizes it as nothing.
use vstd::prelude::*;

use std::io::Write;
use termcolor::WriteColor;

use crate::format::RenderError;
use crate::format::color::Color;

verus! {

/// One operation applied to the sink while rendering a record.
#[derive(Debug, PartialEq, Eq)]
pub enum Op {
    /// Set the foreground color for the text that follows.
    SetFg(Color),
    /// Reset the foreground color to the default.
    Reset,
    /// Write this text.
    Text(String),
}

/// The ghost image of an operation, with text as its character sequence.
pub enum OpModel {
    SetFg(Color),
    Reset,
    Text(Seq<char>),
}

impl DeepView for Op {
    type V = OpModel;

    open spec fn deep_view(&self) -> OpModel {
        match self {
            Op::SetFg(c) => OpModel::SetFg(*c),
            Op::Reset => OpModel::Reset,
            Op::Text(s) => OpModel::Text(s@),
        }
    }
}

#[verifier::external_type_specification]
#[verifier::external_body]
pub struct ExBufferWriter(termcolor::BufferWriter);

#[verifier::external_type_specification]
#[verifier::external_body]
pub struct ExBuffer(termcolor::Buffer);

/// The sequence of operations that have been applied to a buffer.
pub uninterp spec fn buffer_ops(b: termcolor::Buffer) -> Seq<OpModel>;

/// Relies on termcolor::BufferWriter::stdout: a writer to standard output
/// that colors only when asked to and the stream allows it.
#[verifier::external_body]
pub(crate) fn stdout_writer(use_color: bool) -> termcolor::BufferWriter {
    let choice = if use_color {
        termcolor::ColorChoice::Auto
    } else {
        termcolor::ColorChoice::Never
    };
    termcolor::BufferWriter::stdout(choice)
}

/// Relies on termcolor::BufferWriter::buffer: a fresh buffer with the
/// writer's color preferences, holding nothing yet.
#[verifier::external_body]
pub(crate) fn new_buffer(w: &termcolor::BufferWriter) -> (r: termcolor::Buffer)
    ensures
        buffer_ops(r) == Seq::<OpModel>::empty(),
{
    w.buffer()
}

/// Relies on termcolor::Buffer's WriteColor::set_color: asks the buffer to
/// set the foreground color, appending that one paint operation. The
/// buffer is in memory, so the write cannot fail.
#[verifier::external_body]
pub(crate) fn buffer_set_fg(b: &mut termcolor::Buffer, c: Color) -> (r: Result<(), RenderError>)
    ensures
        r is Ok,
        buffer_ops(*final(b)) == buffer_ops(*old(b)).push(OpModel::SetFg(c)),
{
    let tc = match c {
        Color::Red => termcolor::Color::Red,
        Color::Yellow => termcolor::Color::Yellow,
        Color::Green => termcolor::Color::Green,
        Color::Cyan => termcolor::Color::Cyan,
        Color::Blue => termcolor::Color::Blue,
        Color::Ansi256(n) => termcolor::Color::Ansi256(n),
    };
    match b.set_color(termcolor::ColorSpec::new().set_fg(Some(tc))) {
        Ok(()) => Ok(()),
        Err(_) => Err(RenderError),
    }
}

/// Relies on termcolor::Buffer's WriteColor::reset: resets the foreground
/// color to the default, appending that one paint operation. The buffer is
/// in memory, so the write cannot fail.
#[verifier::external_body]
pub(crate) fn buffer_reset(b: &mut termcolor::Buffer) -> (r: Result<(), RenderError>)
    ensures
        r is Ok,
        buffer_ops(*final(b)) == buffer_ops(*old(b)).push(OpModel::Reset),
{
    match b.reset() {
        Ok(()) => Ok(()),
        Err(_) => Err(RenderError),
    }
}

/// Relies on the std::io::Write impl of termcolor::Buffer (write_all): the
/// text's bytes are appended as one write operation. The buffer is in
/// memory, so the write cannot fail.
#[verifier::external_body]
pub(crate) fn buffer_write(b: &mut termcolor::Buffer, s: &str) -> (r: Result<(), RenderError>)
    ensures
        r is Ok,
        buffer_ops(*final(b)) == buffer_ops(*old(b)).push(OpModel::Text(s@)),
{
    match b.write_all(s.as_bytes()) {
        Ok(()) => Ok(()),
        Err(_) => Err(RenderError),
    }
}

/// Relies on termcolor::BufferWriter::print: the buffer's contents are
/// written to standard output as one atomic write, so whole records never
/// interleave across threads.
#[verifier::external_body]
pub(crate) fn print_buffer(w: &termcolor::BufferWriter, b: &termcolor::Buffer) -> Result<
    (),
    RenderError,
> {
    match w.print(b) {
        Ok(()) => Ok(()),
        Err(_) => Err(RenderError),
    }
}

} // verus!
