//! A pretty logger: renders each record through the staged pipeline into
//! one buffer and writes that buffer to standard output in one piece.
use vstd::prelude::*;

use crate::Level;
use crate::format::Print;
use crate::format::RenderError;
use crate::format::color::RecordColorConfig;
use crate::format::color::spec_default_colors;
use crate::format::sink::Op;
use crate::format::sink::OpModel;
use crate::format::sink::new_buffer;
use crate::format::sink::print_buffer;
use crate::format::sink::stdout_writer;
use crate::format::time::TimeSource;
use crate::format::time::Timestamp;
use crate::format::time::TimestampStyle;
use crate::format::time::Uptime;
use crate::format::writer::apply_ops;
use crate::format::writer::lemma_paint_distributes;
use crate::format::writer::lemma_paint_level_stage;
use crate::format::writer::lemma_paint_text_stages;
use crate::format::writer::lemma_wb_concat;
use crate::format::writer::new_writer;
use crate::format::writer::paint_ops;
use crate::format::writer::well_bracketed;
use crate::format::writer::spec_continuation_stage;
use crate::format::writer::spec_level_stage;
use crate::format::writer::spec_message_stage;
use crate::format::writer::spec_target_stage;
use crate::format::writer::spec_timestamp_stage;

verus! {

/// A pretty logger: a fixed render configuration, immutable once built.
pub struct Pretty {
    pub continuation: Option<String>,
    pub time: Option<TimeSource>,
    pub use_color: bool,
    pub level: bool,
    pub target: bool,
    pub record_colors: RecordColorConfig,
}

/// The operation sequence the pipeline emits for one record: each enabled
/// stage in the fixed order level, target, timestamp, continuation,
/// message, with `time` the rendered timestamp text, if any.
pub open spec fn spec_render(
    p: Pretty,
    target: Seq<char>,
    lvl: Level,
    msg: Seq<char>,
    time: Option<Seq<char>>,
) -> Seq<OpModel> {
    (if p.level {
        spec_level_stage(p.use_color, p.record_colors.level, lvl)
    } else {
        Seq::empty()
    }) + (if p.target {
        spec_target_stage(p.use_color, p.record_colors.target, target)
    } else {
        Seq::empty()
    }) + (match time {
        Some(t) => spec_timestamp_stage(p.use_color, p.record_colors.timestamp, t),
        None => Seq::empty(),
    }) + (match p.continuation {
        Some(c) => spec_continuation_stage(p.use_color, p.record_colors.continuation, c@),
        None => Seq::empty(),
    }) + spec_message_stage(p.use_color, p.record_colors.message, msg)
}

/// With coloring disabled the pipeline emits no paint operation at all: the
/// rendered output is plain text, a pure function of the record, the
/// configuration and the timestamp text — so rendering the same record
/// twice yields identical output.
pub proof fn lemma_render_plain(
    p: Pretty,
    target: Seq<char>,
    lvl: Level,
    msg: Seq<char>,
    time: Option<Seq<char>>,
)
    requires
        !p.use_color,
    ensures
        paint_ops(spec_render(p, target, lvl, msg, time)) == Seq::<OpModel>::empty(),
{
    lemma_render_paint_shape(p, target, lvl, msg, time);
}

/// Every colored segment the pipeline emits is bracketed by one set-color
/// and one reset operation, in strict alternation with nothing left set at
/// the end: color never leaks into an adjacent field or a later record.
pub proof fn lemma_render_bracketed(
    p: Pretty,
    target: Seq<char>,
    lvl: Level,
    msg: Seq<char>,
    time: Option<Seq<char>>,
)
    ensures
        well_bracketed(paint_ops(spec_render(p, target, lvl, msg, time))),
{
    lemma_render_paint_shape(p, target, lvl, msg, time);
}

proof fn lemma_wb_piece(s: Seq<OpModel>)
    requires
        s == Seq::<OpModel>::empty() || exists|c: crate::format::color::Color|
            s == seq![OpModel::SetFg(c), OpModel::Reset],
    ensures
        well_bracketed(s),
{
}

proof fn lemma_render_paint_shape(
    p: Pretty,
    target: Seq<char>,
    lvl: Level,
    msg: Seq<char>,
    time: Option<Seq<char>>,
)
    ensures
        well_bracketed(paint_ops(spec_render(p, target, lvl, msg, time))),
        !p.use_color ==> paint_ops(spec_render(p, target, lvl, msg, time)) == Seq::<
            OpModel,
        >::empty(),
{
    let s1: Seq<OpModel> = if p.level {
        spec_level_stage(p.use_color, p.record_colors.level, lvl)
    } else {
        Seq::empty()
    };
    let s2: Seq<OpModel> = if p.target {
        spec_target_stage(p.use_color, p.record_colors.target, target)
    } else {
        Seq::empty()
    };
    let s3: Seq<OpModel> = match time {
        Some(t) => spec_timestamp_stage(p.use_color, p.record_colors.timestamp, t),
        None => Seq::empty(),
    };
    let s4: Seq<OpModel> = match p.continuation {
        Some(c) => spec_continuation_stage(p.use_color, p.record_colors.continuation, c@),
        None => Seq::empty(),
    };
    let s5: Seq<OpModel> = spec_message_stage(p.use_color, p.record_colors.message, msg);
    assert(spec_render(p, target, lvl, msg, time) == s1 + s2 + s3 + s4 + s5);

    lemma_paint_level_stage(p.use_color, p.record_colors.level, lvl);
    lemma_paint_text_stages(p.use_color, p.record_colors.target, target);
    if time is Some {
        lemma_paint_text_stages(p.use_color, p.record_colors.timestamp, time->0);
    }
    if p.continuation is Some {
        lemma_paint_text_stages(p.use_color, p.record_colors.continuation, p.continuation->0@);
    }
    lemma_paint_text_stages(p.use_color, p.record_colors.message, msg);
    assert(paint_ops(Seq::<OpModel>::empty()) =~= Seq::<OpModel>::empty());

    lemma_paint_distributes(s1, s2);
    lemma_paint_distributes(s1 + s2, s3);
    lemma_paint_distributes(s1 + s2 + s3, s4);
    lemma_paint_distributes(s1 + s2 + s3 + s4, s5);

    lemma_wb_piece(paint_ops(s1));
    lemma_wb_piece(paint_ops(s2));
    lemma_wb_piece(paint_ops(s3));
    lemma_wb_piece(paint_ops(s4));
    lemma_wb_piece(paint_ops(s5));
    lemma_wb_concat(paint_ops(s1), paint_ops(s2));
    lemma_wb_concat(paint_ops(s1) + paint_ops(s2), paint_ops(s3));
    lemma_wb_concat(paint_ops(s1) + paint_ops(s2) + paint_ops(s3), paint_ops(s4));
    lemma_wb_concat(
        paint_ops(s1) + paint_ops(s2) + paint_ops(s3) + paint_ops(s4),
        paint_ops(s5),
    );
    assert(paint_ops(spec_render(p, target, lvl, msg, time)) == paint_ops(s1) + paint_ops(s2)
        + paint_ops(s3) + paint_ops(s4) + paint_ops(s5));
    if !p.use_color {
        assert(paint_ops(s1) + paint_ops(s2) + paint_ops(s3) + paint_ops(s4) + paint_ops(s5)
            =~= Seq::<OpModel>::empty());
    }
}

impl Pretty {
    /// Get a builder for the pretty logger.
    pub fn builder() -> (r: PrettyBuilder)
        ensures
            r.use_color == true,
            r.time is None,
            r.target == false,
            r.level == false,
            r.continuation is None,
            r.record_colors == spec_default_colors(),
    {
        PrettyBuilder::default()
    }

    /// The operation sequence for one record, with the timestamp text
    /// already rendered.
    pub fn render_ops(&self, target: &str, lvl: Level, msg: &str, time: Option<&str>) -> (r: Vec<
        Op,
    >)
        ensures
            r.deep_view() == spec_render(
                *self,
                target@,
                lvl,
                msg@,
                match time {
                    Some(t) => Some(t@),
                    None => None,
                },
            ),
    {
        let w = new_writer(target, lvl, msg, Some(self.record_colors), self.use_color);
        let mut ops: Vec<Op> = Vec::new();
        if self.level {
            w.level(&mut ops);
        }
        if self.target {
            w.target(&mut ops);
        }
        if let Some(t) = time {
            w.timestamp(&mut ops, t);
        }
        if let Some(cont) = &self.continuation {
            w.continuation(&mut ops, cont.as_str());
        }
        w.message(&mut ops);
        proof {
            assert(ops.deep_view() =~= spec_render(
                *self,
                target@,
                lvl,
                msg@,
                match time {
                    Some(t) => Some(t@),
                    None => None,
                },
            ));
        }
        ops
    }

    /// Render one record and write it to standard output as one contiguous
    /// buffer. A clock or sink failure stops the render; the record is then
    /// dropped for this write.
    pub fn render(&self, target: &str, lvl: Level, msg: &str) -> (r: Result<(), RenderError>) {
        let time_text: Option<String> = match &self.time {
            None => None,
            Some(src) => match src.render() {
                Ok(t) => Some(t),
                Err(e) => {
                    return Err(e);
                },
            },
        };
        let ops = self.render_ops(
            target,
            lvl,
            msg,
            match &time_text {
                Some(t) => Some(t.as_str()),
                None => None,
            },
        );
        let w = stdout_writer(self.use_color);
        let mut buf = new_buffer(&w);
        if let Err(e) = apply_ops(&mut buf, &ops) {
            return Err(e);
        }
        print_buffer(&w, &buf)
    }
}

impl Default for Pretty {
    /// Level and target shown, color on, no time source, no continuation,
    /// the default palette.
    fn default() -> (r: Self)
        ensures
            r.continuation is None,
            r.time is None,
            r.use_color == true,
            r.level == true,
            r.target == true,
            r.record_colors == spec_default_colors(),
    {
        Pretty {
            continuation: None,
            time: None,
            use_color: true,
            level: true,
            target: true,
            record_colors: RecordColorConfig::default(),
        }
    }
}

impl Print for Pretty {
    fn print(&self, target: &str, level: Level, message: &str) -> Result<(), RenderError> {
        self.render(target, level, message)
    }
}

/// Configure a Pretty logger.
pub struct PrettyBuilder {
    pub time: Option<TimeSource>,
    pub target: bool,
    pub level: bool,
    pub use_color: bool,
    pub continuation: Option<String>,
    pub record_colors: RecordColorConfig,
}

impl Default for PrettyBuilder {
    /// Color on; no time source, no continuation, level and target off,
    /// the default palette.
    fn default() -> (r: Self)
        ensures
            r.use_color == true,
            r.time is None,
            r.target == false,
            r.level == false,
            r.continuation is None,
            r.record_colors == spec_default_colors(),
    {
        PrettyBuilder {
            time: None,
            target: false,
            level: false,
            use_color: true,
            continuation: None,
            record_colors: RecordColorConfig::default(),
        }
    }
}

impl PrettyBuilder {
    /// Override the palette.
    pub fn with_custom_colors(self, config: RecordColorConfig) -> (r: Self)
        ensures
            r == (PrettyBuilder { record_colors: config, ..self }),
    {
        PrettyBuilder { record_colors: config, ..self }
    }

    /// Turn coloring on.
    pub fn with_color(self) -> (r: Self)
        ensures
            r == (PrettyBuilder { use_color: true, ..self }),
    {
        PrettyBuilder { use_color: true, ..self }
    }

    /// Turn coloring off.
    pub fn without_color(self) -> (r: Self)
        ensures
            r == (PrettyBuilder { use_color: false, ..self }),
    {
        PrettyBuilder { use_color: false, ..self }
    }

    /// Attach a time source.
    pub fn with_time(self, time: TimeSource) -> (r: Self)
        ensures
            r == (PrettyBuilder { time: Some(time), ..self }),
    {
        PrettyBuilder { time: Some(time), ..self }
    }

    /// Remove the time source.
    pub fn without_time(self) -> (r: Self)
        ensures
            r == (PrettyBuilder { time: None, ..self }),
    {
        PrettyBuilder { time: None, ..self }
    }

    /// Show the target field.
    pub fn with_target(self) -> (r: Self)
        ensures
            r == (PrettyBuilder { target: true, ..self }),
    {
        PrettyBuilder { target: true, ..self }
    }

    /// Hide the target field.
    pub fn without_target(self) -> (r: Self)
        ensures
            r == (PrettyBuilder { target: false, ..self }),
    {
        PrettyBuilder { target: false, ..self }
    }

    /// Show the level field.
    pub fn with_level(self) -> (r: Self)
        ensures
            r == (PrettyBuilder { level: true, ..self }),
    {
        PrettyBuilder { level: true, ..self }
    }

    /// Hide the level field.
    pub fn without_level(self) -> (r: Self)
        ensures
            r == (PrettyBuilder { level: false, ..self }),
    {
        PrettyBuilder { level: false, ..self }
    }

    /// Attach a continuation marker; absent text means the default glyph.
    pub fn with_continuation(self, cont: Option<&str>) -> (r: Self)
        ensures
            r.continuation matches Some(c) && c@ == (match cont {
                Some(s) => s@,
                None => crate::DEFAULT_CONTINUATION@,
            }),
            r.time == self.time,
            r.target == self.target,
            r.level == self.level,
            r.use_color == self.use_color,
            r.record_colors == self.record_colors,
    {
        let text: String = match cont {
            Some(s) => s.to_owned(),
            None => crate::DEFAULT_CONTINUATION.to_owned(),
        };
        PrettyBuilder { continuation: Some(text), ..self }
    }

    /// Remove the continuation marker.
    pub fn without_continuation(self) -> (r: Self)
        ensures
            r == (PrettyBuilder { continuation: None, ..self }),
    {
        PrettyBuilder { continuation: None, ..self }
    }

    /// Convenience for an uptime time source with its defaults.
    pub fn uptime(self) -> (r: Self)
        ensures
            r.time matches Some(t) && t matches TimeSource::Uptime(u) && u.style
                == TimestampStyle::Fractional(9),
            r.target == self.target,
            r.level == self.level,
            r.use_color == self.use_color,
            r.continuation == self.continuation,
            r.record_colors == self.record_colors,
    {
        self.with_time(TimeSource::Uptime(Uptime::default()))
    }

    /// Convenience for a wall-clock time source; an absent style means the
    /// default, whole seconds.
    pub fn unix_timestamp(self, style: Option<TimestampStyle>) -> (r: Self)
        ensures
            r.time == Some(TimeSource::Timestamp(Timestamp {
                style: match style {
                    Some(s) => s,
                    None => TimestampStyle::Whole,
                },
            })),
            r.target == self.target,
            r.level == self.level,
            r.use_color == self.use_color,
            r.continuation == self.continuation,
            r.record_colors == self.record_colors,
    {
        let s = match style {
            Some(s) => s,
            None => TimestampStyle::default(),
        };
        self.with_time(TimeSource::Timestamp(Timestamp::new(s)))
    }

    /// Build the logger with the chosen configuration.
    pub fn build(self) -> (r: Pretty)
        ensures
            r.continuation == self.continuation,
            r.level == self.level,
            r.target == self.target,
            r.time == self.time,
            r.use_color == self.use_color,
            r.record_colors == self.record_colors,
    {
        Pretty {
            continuation: self.continuation,
            level: self.level,
            target: self.target,
            time: self.time,
            use_color: self.use_color,
            record_colors: self.record_colors,
        }
    }
}

} // verus!
