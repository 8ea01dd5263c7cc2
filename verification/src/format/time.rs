//! Time rendering: UNIX timestamps and process uptime, whole or with a
//! scaled fractional part.
use vstd::prelude::*;

use vstd::arithmetic::div_mod::lemma_div_is_ordered_by_denominator;

use crate::format::RenderError;

verus! {

// ---------------------------------------------------------------------------
// Decimal rendering
// ---------------------------------------------------------------------------

/// The decimal digit character for `d` in `0..=9`.
pub open spec fn digit_char(d: nat) -> char {
    if d == 0 {
        '0'
    } else if d == 1 {
        '1'
    } else if d == 2 {
        '2'
    } else if d == 3 {
        '3'
    } else if d == 4 {
        '4'
    } else if d == 5 {
        '5'
    } else if d == 6 {
        '6'
    } else if d == 7 {
        '7'
    } else if d == 8 {
        '8'
    } else {
        '9'
    }
}

/// The decimal rendering of `n`, most significant digit first, no sign and
/// no padding.
pub open spec fn dec_str(n: nat) -> Seq<char>
    decreases n,
{
    if n < 10 {
        seq![digit_char(n)]
    } else {
        dec_str(n / 10).push(digit_char(n % 10))
    }
}

fn digit_str(d: u64) -> (r: &'static str)
    requires
        d < 10,
    ensures
        r@ == seq![digit_char(d as nat)],
{
    match d {
        0 => {
            proof {
                reveal_strlit("0");
            }
            assert("0"@ =~= seq![digit_char(0)]);
            "0"
        },
        1 => {
            proof {
                reveal_strlit("1");
            }
            assert("1"@ =~= seq![digit_char(1)]);
            "1"
        },
        2 => {
            proof {
                reveal_strlit("2");
            }
            assert("2"@ =~= seq![digit_char(2)]);
            "2"
        },
        3 => {
            proof {
                reveal_strlit("3");
            }
            assert("3"@ =~= seq![digit_char(3)]);
            "3"
        },
        4 => {
            proof {
                reveal_strlit("4");
            }
            assert("4"@ =~= seq![digit_char(4)]);
            "4"
        },
        5 => {
            proof {
                reveal_strlit("5");
            }
            assert("5"@ =~= seq![digit_char(5)]);
            "5"
        },
        6 => {
            proof {
                reveal_strlit("6");
            }
            assert("6"@ =~= seq![digit_char(6)]);
            "6"
        },
        7 => {
            proof {
                reveal_strlit("7");
            }
            assert("7"@ =~= seq![digit_char(7)]);
            "7"
        },
        8 => {
            proof {
                reveal_strlit("8");
            }
            assert("8"@ =~= seq![digit_char(8)]);
            "8"
        },
        _ => {
            proof {
                reveal_strlit("9");
            }
            assert("9"@ =~= seq![digit_char(9)]);
            "9"
        },
    }
}

/// Render `n` in decimal.
pub fn u64_to_dec(n: u64) -> (r: String)
    ensures
        r@ == dec_str(n as nat),
    decreases n,
{
    if n < 10 {
        digit_str(n).to_owned()
    } else {
        let mut s = u64_to_dec(n / 10);
        let d = digit_str(n % 10);
        s.append(d);
        proof {
            assert(dec_str((n / 10) as nat).push(digit_char((n % 10) as nat)) =~= dec_str(
                (n / 10) as nat,
            ) + seq![digit_char((n % 10) as nat)]);
        }
        s
    }
}

// ---------------------------------------------------------------------------
// Fractional scaling
// ---------------------------------------------------------------------------

/// Ten to the `n`th power.
pub open spec fn pow10(n: nat) -> nat
    decreases n,
{
    if n == 0 {
        1
    } else {
        10 * pow10((n - 1) as nat)
    }
}

proof fn lemma_pow10_pos(n: nat)
    ensures
        pow10(n) >= 1,
    decreases n,
{
    if n > 0 {
        lemma_pow10_pos((n - 1) as nat);
    }
}

proof fn lemma_pow10_increases(a: nat, b: nat)
    requires
        a <= b,
    ensures
        pow10(a) <= pow10(b),
    decreases b,
{
    if a < b {
        lemma_pow10_increases(a, (b - 1) as nat);
        lemma_pow10_pos((b - 1) as nat);
    }
}

/// A nanosecond remainder scaled down to `s` significant digits: for `s`
/// below nine the value is divided by ten to the `9 - s`, with no rounding;
/// from nine digits on it is kept as it is.
pub open spec fn spec_scale(d: u32, s: int) -> int {
    if s > 9 {
        d as int
    } else {
        (d as int) / (pow10((9 - s) as nat) as int)
    }
}

/// Scale a nanosecond remainder to `s` significant digits.
pub fn scale(d: u32, s: usize) -> (r: u32)
    ensures
        r as int == spec_scale(d, s as int),
{
    if s > 9 {
        return d;
    }
    let e: usize = 9 - s;
    let p: u32 = match e {
        0 => 1,
        1 => 10,
        2 => 100,
        3 => 1000,
        4 => 10000,
        5 => 100000,
        6 => 1000000,
        7 => 10000000,
        8 => 100000000,
        9 => 1000000000,
        _ => {
            proof {
                assert(false);
            }
            1
        },
    };
    proof {
        reveal_with_fuel(pow10, 11);
        assert(p as int == pow10(e as nat) as int);
    }
    d / p
}

/// Scaling is monotonic in the requested digit count, and from nine digits
/// on the full nanosecond precision is kept unscaled.
pub proof fn lemma_scale_monotonic(d: u32, s1: int, s2: int)
    requires
        0 <= s1 <= s2,
    ensures
        spec_scale(d, s1) <= spec_scale(d, s2),
        s1 >= 9 ==> spec_scale(d, s1) == d as int,
{
    if s1 >= 9 {
        if s1 <= 9 {
            assert(pow10((9 - s1) as nat) == 1);
            assert(spec_scale(d, s1) == d as int);
        }
        if s2 <= 9 {
            assert(pow10((9 - s2) as nat) == 1);
        }
    } else if s2 > 9 {
        lemma_pow10_pos((9 - s1) as nat);
        lemma_div_is_ordered_by_denominator(d as int, 1, pow10((9 - s1) as nat) as int);
        assert((d as int) / 1 == d as int);
    } else {
        lemma_pow10_pos((9 - s2) as nat);
        lemma_pow10_increases((9 - s2) as nat, (9 - s1) as nat);
        lemma_div_is_ordered_by_denominator(
            d as int,
            pow10((9 - s2) as nat) as int,
            pow10((9 - s1) as nat) as int,
        );
    }
}

// ---------------------------------------------------------------------------
// Timestamp styles and text
// ---------------------------------------------------------------------------

/// Timestamp style to determine how timestamps should be printed.
#[derive(Clone, Copy, Debug, PartialEq, Eq, Structural)]
#[non_exhaustive]
pub enum TimestampStyle {
    /// Just the whole seconds.
    Whole,
    /// Include fractional time, up to `n` digits.
    Fractional(usize),
}

impl Default for TimestampStyle {
    /// Defaults to `Whole`.
    fn default() -> (r: Self)
        ensures
            r == TimestampStyle::Whole,
    {
        TimestampStyle::Whole
    }
}

/// The text a style renders for a reading of `secs` whole seconds and a
/// `nanos` remainder: whole seconds alone, or with a dot and the scaled
/// fractional part. Zero fractional digits render as whole seconds.
pub open spec fn spec_time_text(style: TimestampStyle, secs: u64, nanos: u32) -> Seq<char> {
    match style {
        TimestampStyle::Whole => dec_str(secs as nat),
        TimestampStyle::Fractional(w) => if w == 0 {
            dec_str(secs as nat)
        } else {
            dec_str(secs as nat) + "."@ + dec_str(spec_scale(nanos, w as int) as nat)
        },
    }
}

/// Render the text for one clock reading.
pub fn render_time(style: TimestampStyle, secs: u64, nanos: u32) -> (r: String)
    ensures
        r@ == spec_time_text(style, secs, nanos),
{
    match style {
        TimestampStyle::Whole => u64_to_dec(secs),
        TimestampStyle::Fractional(w) => {
            if w == 0 {
                u64_to_dec(secs)
            } else {
                let mut s = u64_to_dec(secs);
                s.append(".");
                let frac = u64_to_dec(scale(nanos, w) as u64);
                s.append(frac.as_str());
                s
            }
        },
    }
}

// ---------------------------------------------------------------------------
// Trusted clock access
// ---------------------------------------------------------------------------

#[verifier::external_type_specification]
#[verifier::external_body]
pub struct ExInstant(std::time::Instant);

/// Relies on std::time::Instant::now for the current instant.
#[verifier::external_body]
fn instant_now() -> std::time::Instant {
    std::time::Instant::now()
}

/// Relies on std::time::Instant::elapsed, Duration::as_secs and
/// Duration::subsec_nanos: the time since the instant as whole seconds and a
/// nanosecond remainder, the remainder below one billion.
#[verifier::external_body]
fn instant_elapsed(epoch: &std::time::Instant) -> (r: (u64, u32))
    ensures
        r.1 < 1000000000,
{
    let d = epoch.elapsed();
    (d.as_secs(), d.subsec_nanos())
}

/// Relies on std::time::SystemTime::now and SystemTime::duration_since:
/// whole seconds and a nanosecond remainder since the UNIX epoch, the
/// remainder below one billion, or an error when the clock reads earlier
/// than the epoch.
#[verifier::external_body]
fn unix_now() -> (r: Result<(u64, u32), RenderError>)
    ensures
        r matches Ok(p) ==> p.1 < 1000000000,
{
    match std::time::SystemTime::now().duration_since(std::time::UNIX_EPOCH) {
        Ok(d) => Ok((d.as_secs(), d.subsec_nanos())),
        Err(_) => Err(RenderError),
    }
}

// ---------------------------------------------------------------------------
// Time sources
// ---------------------------------------------------------------------------

/// Primary trait for formatting time.
pub trait FormatTime: Send + Sync {
    /// Render this source's current time as text.
    fn format_time(&self) -> Result<String, RenderError>;
}

/// A timestamp formatter: seconds since the UNIX epoch.
#[derive(Clone, Copy, Debug, PartialEq, Eq, Structural)]
pub struct Timestamp {
    pub style: TimestampStyle,
}

impl Timestamp {
    /// Create a new timestamp with the provided style.
    pub fn new(style: TimestampStyle) -> (r: Self)
        ensures
            r.style == style,
    {
        Timestamp { style }
    }

    /// Render the current wall-clock time in this style; fails only when
    /// the system clock reads earlier than the UNIX epoch.
    pub fn render(&self) -> (r: Result<String, RenderError>)
        ensures
            r matches Ok(t) ==> exists|secs: u64, nanos: u32|
                nanos < 1000000000 && t@ == spec_time_text(self.style, secs, nanos),
    {
        match unix_now() {
            Ok(p) => {
                let t = render_time(self.style, p.0, p.1);
                assert(t@ == spec_time_text(self.style, p.0, p.1));
                Ok(t)
            },
            Err(e) => Err(e),
        }
    }
}

impl Default for Timestamp {
    /// Defaults to whole seconds.
    fn default() -> (r: Self)
        ensures
            r.style == TimestampStyle::Whole,
    {
        Timestamp { style: TimestampStyle::Whole }
    }
}

impl FormatTime for Timestamp {
    fn format_time(&self) -> Result<String, RenderError> {
        self.render()
    }
}

/// The uptime text: the styled elapsed seconds, suffixed with `s`.
pub open spec fn spec_uptime_text(style: TimestampStyle, secs: u64, nanos: u32) -> Seq<char> {
    spec_time_text(style, secs, nanos) + "s"@
}

/// A running epoch counter: time elapsed since a fixed reference instant,
/// such as the start of the program.
pub struct Uptime {
    pub epoch: std::time::Instant,
    pub style: TimestampStyle,
}

impl Uptime {
    /// Create an Uptime starting at `now`.
    pub fn now(style: TimestampStyle) -> (r: Self)
        ensures
            r.style == style,
    {
        Uptime { epoch: instant_now(), style }
    }

    /// Create an Uptime starting at a specific point in time.
    pub fn new(epoch: std::time::Instant, style: TimestampStyle) -> (r: Self)
        ensures
            r.epoch == epoch,
            r.style == style,
    {
        Uptime { epoch, style }
    }

    /// Render the time elapsed since the reference instant; never fails.
    pub fn render(&self) -> (r: Result<String, RenderError>)
        ensures
            r is Ok,
            r matches Ok(t) ==> exists|secs: u64, nanos: u32|
                nanos < 1000000000 && t@ == spec_uptime_text(self.style, secs, nanos),
    {
        let p = instant_elapsed(&self.epoch);
        let mut t = render_time(self.style, p.0, p.1);
        t.append("s");
        assert(t@ == spec_uptime_text(self.style, p.0, p.1));
        Ok(t)
    }
}

impl Default for Uptime {
    /// Defaults to `now` and nine digits of fractional formatting.
    fn default() -> (r: Self)
        ensures
            r.style == TimestampStyle::Fractional(9),
    {
        Uptime { epoch: instant_now(), style: TimestampStyle::Fractional(9) }
    }
}

impl FormatTime for Uptime {
    fn format_time(&self) -> Result<String, RenderError> {
        self.render()
    }
}

impl From<std::time::Instant> for Uptime {
    /// An Uptime starting at the instant, with nine digits of fractional
    /// formatting.
    fn from(epoch: std::time::Instant) -> (r: Self) {
        Uptime { epoch, style: TimestampStyle::Fractional(9) }
    }
}

impl vstd::std_specs::convert::FromSpecImpl<std::time::Instant> for Uptime {
    open spec fn obeys_from_spec() -> bool {
        true
    }

    open spec fn from_spec(epoch: std::time::Instant) -> Self {
        Uptime { epoch, style: TimestampStyle::Fractional(9) }
    }
}

/// The built-in time sources a record writer can be configured with.
pub enum TimeSource {
    Timestamp(Timestamp),
    Uptime(Uptime),
}

/// The text a time source renders for one clock reading.
pub open spec fn spec_source_text(src: TimeSource, secs: u64, nanos: u32) -> Seq<char> {
    match src {
        TimeSource::Timestamp(ts) => spec_time_text(ts.style, secs, nanos),
        TimeSource::Uptime(u) => spec_uptime_text(u.style, secs, nanos),
    }
}

impl TimeSource {
    /// Render this source's current time as text. Only the wall-clock
    /// variant can fail; an uptime source always renders.
    pub fn render(&self) -> (r: Result<String, RenderError>)
        ensures
            self matches TimeSource::Uptime(_) ==> r is Ok,
            r matches Ok(t) ==> exists|secs: u64, nanos: u32|
                nanos < 1000000000 && t@ == spec_source_text(*self, secs, nanos),
    {
        match self {
            TimeSource::Timestamp(ts) => {
                let r = ts.render();
                proof {
                    if r is Ok {
                        let (secs, nanos) = choose|secs: u64, nanos: u32|
                            nanos < 1000000000 && r->Ok_0@ == spec_time_text(ts.style, secs, nanos);
                        assert(nanos < 1000000000 && r->Ok_0@ == spec_source_text(
                            *self,
                            secs,
                            nanos,
                        ));
                    }
                }
                r
            },
            TimeSource::Uptime(u) => {
                let r = u.render();
                proof {
                    if r is Ok {
                        let (secs, nanos) = choose|secs: u64, nanos: u32|
                            nanos < 1000000000 && r->Ok_0@ == spec_uptime_text(
                                u.style,
                                secs,
                                nanos,
                            );
                        assert(nanos < 1000000000 && r->Ok_0@ == spec_source_text(
                            *self,
                            secs,
                            nanos,
                        ));
                    }
                }
                r
            },
        }
    }
}

impl FormatTime for TimeSource {
    fn format_time(&self) -> Result<String, RenderError> {
        self.render()
    }
}

} // verus!
