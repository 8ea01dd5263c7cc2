//! Record writing: the staged render pipeline.
//!
//! A record is rendered as a sequence of sink operations: level, target,
//! timestamp, continuation, then message, each stage independently toggled,
//! each colored segment bracketed by a set-color and a reset operation.
use vstd::prelude::*;

use crate::Level;
use crate::format::RenderError;
use crate::format::color::Color;
use crate::format::color::LevelColorConfig;
use crate::format::color::RecordColorConfig;
use crate::format::color::spec_default_colors;
use crate::format::color::spec_level_color;
use crate::format::sink::Op;
use crate::format::sink::OpModel;
use crate::format::sink::buffer_ops;
use crate::format::sink::buffer_reset;
use crate::format::sink::buffer_set_fg;
use crate::format::sink::buffer_write;

verus! {

// ---------------------------------------------------------------------------
// Level names
// ---------------------------------------------------------------------------

/// The level's display name, left-justified to width five.
pub open spec fn level_text(l: Level) -> Seq<char> {
    match l {
        Level::Error => "ERROR"@,
        Level::Warn => "WARN "@,
        Level::Info => "INFO "@,
        Level::Debug => "DEBUG"@,
        Level::Trace => "TRACE"@,
    }
}

/// The level's display name, left-justified to width five.
pub fn level_str(l: Level) -> (r: &'static str)
    ensures
        r@ == level_text(l),
{
    match l {
        Level::Error => "ERROR",
        Level::Warn => "WARN ",
        Level::Info => "INFO ",
        Level::Debug => "DEBUG",
        Level::Trace => "TRACE",
    }
}

// ---------------------------------------------------------------------------
// The stages
// ---------------------------------------------------------------------------

/// The level stage: the level name in the severity's color.
pub open spec fn spec_level_stage(use_color: bool, lc: LevelColorConfig, l: Level) -> Seq<
    OpModel,
> {
    if use_color {
        seq![
            OpModel::SetFg(spec_level_color(lc, l)),
            OpModel::Text(level_text(l)),
            OpModel::Reset,
        ]
    } else {
        seq![OpModel::Text(level_text(l))]
    }
}

/// The target stage: a space and an opening bracket, the target colored,
/// the closing bracket uncolored.
pub open spec fn spec_target_stage(use_color: bool, c: Color, target: Seq<char>) -> Seq<OpModel> {
    if use_color {
        seq![
            OpModel::Text(" ["@),
            OpModel::SetFg(c),
            OpModel::Text(target),
            OpModel::Reset,
            OpModel::Text("]"@),
        ]
    } else {
        seq![OpModel::Text(" ["@), OpModel::Text(target), OpModel::Text("]"@)]
    }
}

/// The timestamp stage: a space, then the rendered time colored.
pub open spec fn spec_timestamp_stage(use_color: bool, c: Color, t: Seq<char>) -> Seq<OpModel> {
    if use_color {
        seq![OpModel::Text(" "@), OpModel::SetFg(c), OpModel::Text(t), OpModel::Reset]
    } else {
        seq![OpModel::Text(" "@), OpModel::Text(t)]
    }
}

/// The continuation stage: a newline, then the continuation marker colored.
pub open spec fn spec_continuation_stage(use_color: bool, c: Color, cont: Seq<char>) -> Seq<
    OpModel,
> {
    if use_color {
        seq![OpModel::Text("\n"@), OpModel::SetFg(c), OpModel::Text(cont), OpModel::Reset]
    } else {
        seq![OpModel::Text("\n"@), OpModel::Text(cont)]
    }
}

/// The message stage: a space and the message colored, then a newline.
pub open spec fn spec_message_stage(use_color: bool, c: Color, msg: Seq<char>) -> Seq<OpModel> {
    if use_color {
        seq![
            OpModel::SetFg(c),
            OpModel::Text(" "@),
            OpModel::Text(msg),
            OpModel::Reset,
            OpModel::Text("\n"@),
        ]
    } else {
        seq![OpModel::Text(" "@), OpModel::Text(msg), OpModel::Text("\n"@)]
    }
}

// ---------------------------------------------------------------------------
// The writer
// ---------------------------------------------------------------------------

/// A record writer: one record's fields with the color configuration.
pub struct Writer<'a> {
    pub record_colors: RecordColorConfig,
    pub use_color: bool,
    pub target: &'a str,
    pub level: Level,
    pub message: &'a str,
}

/// Wrap a record with a writer; absent colors mean the default palette.
pub fn new_writer<'a>(
    target: &'a str,
    level: Level,
    message: &'a str,
    record_colors: Option<RecordColorConfig>,
    use_color: bool,
) -> (r: Writer<'a>)
    ensures
        r.record_colors == (match record_colors {
            Some(c) => c,
            None => spec_default_colors(),
        }),
        r.use_color == use_color,
        r.target@ == target@,
        r.level == level,
        r.message@ == message@,
{
    let colors = match record_colors {
        Some(c) => c,
        None => RecordColorConfig::default(),
    };
    Writer { record_colors: colors, use_color, target, level, message }
}

impl<'a> Writer<'a> {
    /// Write the level.
    pub fn level(&self, ops: &mut Vec<Op>)
        ensures
            final(ops).deep_view() == old(ops).deep_view() + spec_level_stage(
                self.use_color,
                self.record_colors.level,
                self.level,
            ),
    {
        if self.use_color {
            ops.push(Op::SetFg(self.record_colors.level.color_for(self.level)));
            ops.push(Op::Text(level_str(self.level).to_owned()));
            ops.push(Op::Reset);
        } else {
            ops.push(Op::Text(level_str(self.level).to_owned()));
        }
        proof {
            assert(ops.deep_view() =~= old(ops).deep_view() + spec_level_stage(
                self.use_color,
                self.record_colors.level,
                self.level,
            ));
        }
    }

    /// Write the target.
    pub fn target(&self, ops: &mut Vec<Op>)
        ensures
            final(ops).deep_view() == old(ops).deep_view() + spec_target_stage(
                self.use_color,
                self.record_colors.target,
                self.target@,
            ),
    {
        ops.push(Op::Text(" [".to_owned()));
        if self.use_color {
            ops.push(Op::SetFg(self.record_colors.target));
            ops.push(Op::Text(self.target.to_owned()));
            ops.push(Op::Reset);
        } else {
            ops.push(Op::Text(self.target.to_owned()));
        }
        ops.push(Op::Text("]".to_owned()));
        proof {
            assert(ops.deep_view() =~= old(ops).deep_view() + spec_target_stage(
                self.use_color,
                self.record_colors.target,
                self.target@,
            ));
        }
    }

    /// Write the provided, already rendered, timestamp text.
    pub fn timestamp(&self, ops: &mut Vec<Op>, t: &str)
        ensures
            final(ops).deep_view() == old(ops).deep_view() + spec_timestamp_stage(
                self.use_color,
                self.record_colors.timestamp,
                t@,
            ),
    {
        ops.push(Op::Text(" ".to_owned()));
        if self.use_color {
            ops.push(Op::SetFg(self.record_colors.timestamp));
            ops.push(Op::Text(t.to_owned()));
            ops.push(Op::Reset);
        } else {
            ops.push(Op::Text(t.to_owned()));
        }
        proof {
            assert(ops.deep_view() =~= old(ops).deep_view() + spec_timestamp_stage(
                self.use_color,
                self.record_colors.timestamp,
                t@,
            ));
        }
    }

    /// Write a continuation marker on a new line.
    pub fn continuation(&self, ops: &mut Vec<Op>, cont: &str)
        ensures
            final(ops).deep_view() == old(ops).deep_view() + spec_continuation_stage(
                self.use_color,
                self.record_colors.continuation,
                cont@,
            ),
    {
        ops.push(Op::Text("\n".to_owned()));
        if self.use_color {
            ops.push(Op::SetFg(self.record_colors.continuation));
            ops.push(Op::Text(cont.to_owned()));
            ops.push(Op::Reset);
        } else {
            ops.push(Op::Text(cont.to_owned()));
        }
        proof {
            assert(ops.deep_view() =~= old(ops).deep_view() + spec_continuation_stage(
                self.use_color,
                self.record_colors.continuation,
                cont@,
            ));
        }
    }

    /// Write the message, terminated by a newline.
    pub fn message(&self, ops: &mut Vec<Op>)
        ensures
            final(ops).deep_view() == old(ops).deep_view() + spec_message_stage(
                self.use_color,
                self.record_colors.message,
                self.message@,
            ),
    {
        if self.use_color {
            ops.push(Op::SetFg(self.record_colors.message));
        }
        ops.push(Op::Text(" ".to_owned()));
        ops.push(Op::Text(self.message.to_owned()));
        if self.use_color {
            ops.push(Op::Reset);
        }
        ops.push(Op::Text("\n".to_owned()));
        proof {
            assert(ops.deep_view() =~= old(ops).deep_view() + spec_message_stage(
                self.use_color,
                self.record_colors.message,
                self.message@,
            ));
        }
    }
}

// ---------------------------------------------------------------------------
// Paint discipline
// ---------------------------------------------------------------------------

/// Whether an operation paints (sets or resets a color) rather than writes.
pub open spec fn is_paint(op: OpModel) -> bool {
    match op {
        OpModel::SetFg(_) => true,
        OpModel::Reset => true,
        OpModel::Text(_) => false,
    }
}

/// The paint operations of a sequence, writes dropped, order kept.
pub open spec fn paint_ops(ops: Seq<OpModel>) -> Seq<OpModel>
    decreases ops.len(),
{
    if ops.len() == 0 {
        Seq::empty()
    } else {
        let rest = paint_ops(ops.drop_last());
        if is_paint(ops.last()) {
            rest.push(ops.last())
        } else {
            rest
        }
    }
}

/// Strict alternation of set-color and reset: every set is followed by its
/// reset before any further paint, and nothing is left set at the end.
pub open spec fn well_bracketed(ops: Seq<OpModel>) -> bool {
    ops.len() % 2 == 0 && forall|i: int|
        0 <= i < ops.len() ==> ((i % 2 == 0 ==> ops[i] is SetFg) && (i % 2 == 1
            ==> ops[i] is Reset))
}

pub proof fn lemma_paint_distributes(a: Seq<OpModel>, b: Seq<OpModel>)
    ensures
        paint_ops(a + b) == paint_ops(a) + paint_ops(b),
    decreases b.len(),
{
    if b.len() == 0 {
        assert(a + b =~= a);
        assert(paint_ops(b) =~= Seq::<OpModel>::empty());
        assert(paint_ops(a + b) =~= paint_ops(a) + paint_ops(b));
    } else {
        lemma_paint_distributes(a, b.drop_last());
        assert((a + b).drop_last() =~= a + b.drop_last());
        assert((a + b).last() == b.last());
        assert(paint_ops(a + b) =~= paint_ops(a) + paint_ops(b));
    }
}

pub proof fn lemma_wb_concat(a: Seq<OpModel>, b: Seq<OpModel>)
    requires
        well_bracketed(a),
        well_bracketed(b),
    ensures
        well_bracketed(a + b),
{
    assert forall|i: int| 0 <= i < (a + b).len() implies (((i % 2 == 0 ==> (a + b)[i] is SetFg)
        && (i % 2 == 1 ==> (a + b)[i] is Reset))) by {
        if i < a.len() {
            assert((a + b)[i] == a[i]);
        } else {
            assert((a + b)[i] == b[i - a.len()]);
            assert((i - a.len()) % 2 == i % 2);
        }
    }
}

proof fn lemma_paint_stage_shapes(use_color: bool, c: Color, lc: LevelColorConfig, l: Level, t: Seq<char>)
    ensures
        paint_ops(spec_level_stage(use_color, lc, l)) == (if use_color {
            seq![OpModel::SetFg(spec_level_color(lc, l)), OpModel::Reset]
        } else {
            Seq::<OpModel>::empty()
        }),
        paint_ops(spec_target_stage(use_color, c, t)) == (if use_color {
            seq![OpModel::SetFg(c), OpModel::Reset]
        } else {
            Seq::<OpModel>::empty()
        }),
        paint_ops(spec_timestamp_stage(use_color, c, t)) == (if use_color {
            seq![OpModel::SetFg(c), OpModel::Reset]
        } else {
            Seq::<OpModel>::empty()
        }),
        paint_ops(spec_continuation_stage(use_color, c, t)) == (if use_color {
            seq![OpModel::SetFg(c), OpModel::Reset]
        } else {
            Seq::<OpModel>::empty()
        }),
        paint_ops(spec_message_stage(use_color, c, t)) == (if use_color {
            seq![OpModel::SetFg(c), OpModel::Reset]
        } else {
            Seq::<OpModel>::empty()
        }),
{
    reveal_with_fuel(paint_ops, 7);
    let lv = spec_level_stage(use_color, lc, l);
    let tg = spec_target_stage(use_color, c, t);
    let ts = spec_timestamp_stage(use_color, c, t);
    let cn = spec_continuation_stage(use_color, c, t);
    let ms = spec_message_stage(use_color, c, t);
    if use_color {
        assert(lv.drop_last() =~= seq![
            OpModel::SetFg(spec_level_color(lc, l)),
            OpModel::Text(level_text(l)),
        ]);
        assert(lv.drop_last().drop_last() =~= seq![OpModel::SetFg(spec_level_color(lc, l))]);
        assert(lv.drop_last().drop_last().drop_last() =~= Seq::<OpModel>::empty());
        assert(paint_ops(lv) =~= seq![OpModel::SetFg(spec_level_color(lc, l)), OpModel::Reset]);

        assert(tg.drop_last() =~= seq![
            OpModel::Text(" ["@),
            OpModel::SetFg(c),
            OpModel::Text(t),
            OpModel::Reset,
        ]);
        assert(tg.drop_last().drop_last() =~= seq![
            OpModel::Text(" ["@),
            OpModel::SetFg(c),
            OpModel::Text(t),
        ]);
        assert(tg.drop_last().drop_last().drop_last() =~= seq![
            OpModel::Text(" ["@),
            OpModel::SetFg(c),
        ]);
        assert(tg.drop_last().drop_last().drop_last().drop_last() =~= seq![OpModel::Text(" ["@)]);
        assert(tg.drop_last().drop_last().drop_last().drop_last().drop_last() =~= Seq::<
            OpModel,
        >::empty());
        assert(paint_ops(tg) =~= seq![OpModel::SetFg(c), OpModel::Reset]);

        assert(ts.drop_last() =~= seq![OpModel::Text(" "@), OpModel::SetFg(c), OpModel::Text(t)]);
        assert(ts.drop_last().drop_last() =~= seq![OpModel::Text(" "@), OpModel::SetFg(c)]);
        assert(ts.drop_last().drop_last().drop_last() =~= seq![OpModel::Text(" "@)]);
        assert(ts.drop_last().drop_last().drop_last().drop_last() =~= Seq::<OpModel>::empty());
        assert(paint_ops(ts) =~= seq![OpModel::SetFg(c), OpModel::Reset]);

        assert(cn.drop_last() =~= seq![OpModel::Text("\n"@), OpModel::SetFg(c), OpModel::Text(t)]);
        assert(cn.drop_last().drop_last() =~= seq![OpModel::Text("\n"@), OpModel::SetFg(c)]);
        assert(cn.drop_last().drop_last().drop_last() =~= seq![OpModel::Text("\n"@)]);
        assert(cn.drop_last().drop_last().drop_last().drop_last() =~= Seq::<OpModel>::empty());
        assert(paint_ops(cn) =~= seq![OpModel::SetFg(c), OpModel::Reset]);

        assert(ms.drop_last() =~= seq![
            OpModel::SetFg(c),
            OpModel::Text(" "@),
            OpModel::Text(t),
            OpModel::Reset,
        ]);
        assert(ms.drop_last().drop_last() =~= seq![
            OpModel::SetFg(c),
            OpModel::Text(" "@),
            OpModel::Text(t),
        ]);
        assert(ms.drop_last().drop_last().drop_last() =~= seq![
            OpModel::SetFg(c),
            OpModel::Text(" "@),
        ]);
        assert(ms.drop_last().drop_last().drop_last().drop_last() =~= seq![OpModel::SetFg(c)]);
        assert(ms.drop_last().drop_last().drop_last().drop_last().drop_last() =~= Seq::<
            OpModel,
        >::empty());
        assert(paint_ops(ms) =~= seq![OpModel::SetFg(c), OpModel::Reset]);
    } else {
        assert(lv.drop_last() =~= Seq::<OpModel>::empty());
        assert(paint_ops(lv) =~= Seq::<OpModel>::empty());

        assert(tg.drop_last() =~= seq![OpModel::Text(" ["@), OpModel::Text(t)]);
        assert(tg.drop_last().drop_last() =~= seq![OpModel::Text(" ["@)]);
        assert(tg.drop_last().drop_last().drop_last() =~= Seq::<OpModel>::empty());
        assert(paint_ops(tg) =~= Seq::<OpModel>::empty());

        assert(ts.drop_last() =~= seq![OpModel::Text(" "@)]);
        assert(ts.drop_last().drop_last() =~= Seq::<OpModel>::empty());
        assert(paint_ops(ts) =~= Seq::<OpModel>::empty());

        assert(cn.drop_last() =~= seq![OpModel::Text("\n"@)]);
        assert(cn.drop_last().drop_last() =~= Seq::<OpModel>::empty());
        assert(paint_ops(cn) =~= Seq::<OpModel>::empty());

        assert(ms.drop_last() =~= seq![OpModel::Text(" "@), OpModel::Text(t)]);
        assert(ms.drop_last().drop_last() =~= seq![OpModel::Text(" "@)]);
        assert(ms.drop_last().drop_last().drop_last() =~= Seq::<OpModel>::empty());
        assert(paint_ops(ms) =~= Seq::<OpModel>::empty());
    }
}

/// The paint operations of a stage: nothing without color, one set-color
/// and reset pair with it.
pub proof fn lemma_paint_level_stage(use_color: bool, lc: LevelColorConfig, l: Level)
    ensures
        paint_ops(spec_level_stage(use_color, lc, l)) == (if use_color {
            seq![OpModel::SetFg(spec_level_color(lc, l)), OpModel::Reset]
        } else {
            Seq::<OpModel>::empty()
        }),
{
    lemma_paint_stage_shapes(use_color, Color::Red, lc, l, Seq::empty());
}

/// The paint operations of the text-bearing stages: nothing without color,
/// one set-color and reset pair with it.
pub proof fn lemma_paint_text_stages(use_color: bool, c: Color, t: Seq<char>)
    ensures
        paint_ops(spec_target_stage(use_color, c, t)) == (if use_color {
            seq![OpModel::SetFg(c), OpModel::Reset]
        } else {
            Seq::<OpModel>::empty()
        }),
        paint_ops(spec_timestamp_stage(use_color, c, t)) == (if use_color {
            seq![OpModel::SetFg(c), OpModel::Reset]
        } else {
            Seq::<OpModel>::empty()
        }),
        paint_ops(spec_continuation_stage(use_color, c, t)) == (if use_color {
            seq![OpModel::SetFg(c), OpModel::Reset]
        } else {
            Seq::<OpModel>::empty()
        }),
        paint_ops(spec_message_stage(use_color, c, t)) == (if use_color {
            seq![OpModel::SetFg(c), OpModel::Reset]
        } else {
            Seq::<OpModel>::empty()
        }),
{
    lemma_paint_stage_shapes(
        use_color,
        c,
        LevelColorConfig {
            error: Color::Red,
            warn: Color::Red,
            info: Color::Red,
            debug: Color::Red,
            trace: Color::Red,
        },
        Level::Error,
        t,
    );
}

// ---------------------------------------------------------------------------
// Applying operations to the sink
// ---------------------------------------------------------------------------

/// Apply a rendered operation sequence to a sink buffer, in order. The
/// buffer is in memory, so this never fails.
pub fn apply_ops(b: &mut termcolor::Buffer, ops: &Vec<Op>) -> (r: Result<(), RenderError>)
    ensures
        r is Ok,
        buffer_ops(*final(b)) == buffer_ops(*old(b)) + ops.deep_view(),
{
    let n = ops.len();
    proof {
        assert(buffer_ops(*b) =~= buffer_ops(*old(b)) + ops.deep_view().take(0));
    }
    for i in 0..n
        invariant
            n == ops@.len(),
            buffer_ops(*b) == buffer_ops(*old(b)) + ops.deep_view().take(i as int),
    {
        let res = match &ops[i] {
            Op::SetFg(c) => buffer_set_fg(b, *c),
            Op::Reset => buffer_reset(b),
            Op::Text(s) => buffer_write(b, s.as_str()),
        };
        if let Err(e) = res {
            return Err(e);
        }
        proof {
            assert(ops.deep_view().take(i + 1) =~= ops.deep_view().take(i as int).push(
                ops@[i as int].deep_view(),
            ));
            assert(buffer_ops(*b) =~= buffer_ops(*old(b)) + ops.deep_view().take(i + 1));
        }
    }
    proof {
        assert(ops.deep_view().take(n as int) =~= ops.deep_view());
    }
    Ok(())
}

} // verus!
