//! Animation engine: pure, time-indexed functions of "microseconds into
//! the current second" (and, for overlays, wall-clock time).
//!
//! The easing curves are the classic bounce, quarter-sine and quintic
//! shapes, evaluated in exact integer arithmetic: each curve keeps its
//! amplitude and duration, the fraction is carried as an integer ratio and
//! every quotient is floored, as the duty-cycle consumers expect.

use vstd::prelude::*;

use crate::clock_objects::{ClockType, LingerDurations, NCS3148CMessage};
use crate::errors::{DisplayMessageError, DisplayMessageResult};
use crate::clock_time::ClockTime;
use crate::randomness::random_in_range;
use crate::temperature_sensor::TemperatureCell;

verus! {

/// Length of the separator flicker window and of the brightness ramp-up,
/// in microseconds into the second.
pub const FLICKER_WINDOW_MICROS: u32 = 750_000;

/// Microsecond of the second at which the brightness ramp-down begins.
pub const RAMP_DOWN_START_MICROS: u32 = 900_000;

/// Largest frame interval the duty-cycle arithmetic accepts.
pub const MAX_FRAME_INTERVAL_MICROS: i64 = 10_000_000;

/// The bounce ease-in curve over the flicker window, scaled to amplitude
/// 255: the standard piecewise-quadratic bounce (coefficient 121/16, knees
/// at 4/11, 8/11 and 10/11 of the reflected time), evaluated in exact
/// integer arithmetic. Falls from 255 at `t == 0` towards 0 at the end of
/// the window.
pub open spec fn bounce_fade_255(t: int) -> int {
    let d: int = 750_000;
    let u = d - t;
    if 11 * u < 4 * d {
        255 * (121 * (u * u)) / (16 * d * d)
    } else if 11 * u < 8 * d {
        let s = 11 * u - 6 * d;
        255 * (s * s + 12 * d * d) / (16 * d * d)
    } else if 11 * u < 10 * d {
        let s = 11 * u - 9 * d;
        255 * (s * s + 15 * d * d) / (16 * d * d)
    } else {
        let s = 22 * u - 21 * d;
        255 * (s * s + 63 * d * d) / (64 * d * d)
    }
}

/// Evaluates the bounce fade curve at `micros` into the second.
fn bounce_fade_level(micros: u32) -> (r: u32)
    requires
        micros < 750_000,
    ensures
        r == bounce_fade_255(micros as int),
        r <= 255,
{
    let u: u64 = 750_000 - micros as u64;
    if 11 * u < 3_000_000 {
        proof {
            assert((u as int) * (u as int) < 272_728 * 272_728) by (nonlinear_arith)
                requires
                    0 <= u as int && (u as int) < 272_728,
            ;
            assert(255 * (121 * ((u as int) * (u as int))) <= 255 * 9_000_000_000_000) by (nonlinear_arith)
                requires
                    0 <= 11 * (u as int) && 11 * (u as int) < 4 * 750_000,
            ;
            assert(9_000_000_000_000 == 16 * 750_000 * 750_000);
        }
        let num: u64 = 255 * (121 * (u * u));
        let r64: u64 = num / 9_000_000_000_000;
        proof {
            assert(9_000_000_000_000 == 16 * 750_000 * 750_000);
            lemma_div_at_most(num as int, 9_000_000_000_000, 255);
        }
        r64 as u32
    } else if 11 * u < 6_000_000 {
        let s: i64 = 11 * (u as i64) - 4_500_000;
        proof {
            assert(-1_500_000 <= s as int && s as int <= 1_500_000);
            assert(0 <= (s as int) * (s as int) && (s as int) * (s as int) <= 1_500_000 * 1_500_000) by (nonlinear_arith)
                requires
                    -1_500_000 <= s as int && s as int <= 1_500_000,
            ;
        }
        let s2: u64 = (s * s) as u64;
        let num: u64 = 255 * (s2 + 12 * 562_500_000_000);
        let r64: u64 = num / 9_000_000_000_000;
        proof {
            assert(12 * 562_500_000_000 == 12 * 750_000 * 750_000);
            lemma_div_at_most(num as int, 9_000_000_000_000, 255);
            assert(9_000_000_000_000 == 16 * 750_000 * 750_000);
        }
        r64 as u32
    } else if 11 * u < 7_500_000 {
        let s: i64 = 11 * (u as i64) - 6_750_000;
        proof {
            assert(-750_000 <= s as int && s as int <= 750_000);
            assert(0 <= (s as int) * (s as int) && (s as int) * (s as int) <= 750_000 * 750_000) by (nonlinear_arith)
                requires
                    -750_000 <= s as int && s as int <= 750_000,
            ;
        }
        let s2: u64 = (s * s) as u64;
        let num: u64 = 255 * (s2 + 15 * 562_500_000_000);
        let r64: u64 = num / 9_000_000_000_000;
        proof {
            assert(15 * 562_500_000_000 == 15 * 750_000 * 750_000);
            lemma_div_at_most(num as int, 9_000_000_000_000, 255);
            assert(9_000_000_000_000 == 16 * 750_000 * 750_000);
        }
        r64 as u32
    } else {
        let s: i64 = 22 * (u as i64) - 15_750_000;
        proof {
            assert(-750_000 <= s as int && s as int <= 750_000);
            assert(0 <= (s as int) * (s as int) && (s as int) * (s as int) <= 750_000 * 750_000) by (nonlinear_arith)
                requires
                    -750_000 <= s as int && s as int <= 750_000,
            ;
        }
        let s2: u64 = (s * s) as u64;
        let num: u64 = 255 * (s2 + 63 * 562_500_000_000);
        let r64: u64 = num / 36_000_000_000_000;
        proof {
            assert(63 * 562_500_000_000 == 63 * 750_000 * 750_000);
            lemma_div_at_most(num as int, 36_000_000_000_000, 255);
            assert(36_000_000_000_000 == 64 * 750_000 * 750_000);
        }
        r64 as u32
    }
}

/// Whether a separator is visible at this instant, once the random draw is
/// fixed: inside the flicker window visibility is gated by the bounce fade
/// level, past it the separator is always off.
pub open spec fn separator_visible_spec(micros: int, draw: int) -> bool {
    micros < 750_000 && draw < bounce_fade_255(micros)
}

/// Separator flicker: a pulse-frequency-modulation animation over the
/// first 750 ms of each second.
pub struct TimeSeparators {}

impl TimeSeparators {
    /// Gates separator visibility at `micros` into the second. The draw is
    /// random, but at or past the end of the flicker window the result is
    /// `false` deterministically.
    pub fn time_separators_animation(micros: u32) -> (r: bool)
        ensures
            micros >= FLICKER_WINDOW_MICROS ==> r == false,
            exists|draw: int| 0 <= draw < 255 && r == separator_visible_spec(micros as int, draw),
    {
        if micros < FLICKER_WINDOW_MICROS {
            let p = bounce_fade_level(micros);
            let draw = random_in_range(0, 255);
            let r = draw < p;
            proof {
                assert(0 <= draw as int && (draw as int) < 255 && r == separator_visible_spec(
                    micros as int,
                    draw as int,
                ));
            }
            r
        } else {
            let r = false;
            proof {
                assert(r == separator_visible_spec(micros as int, 0int));
            }
            r
        }
    }
}

/// A fifth power, factored as the executable computation performs it.
pub open spec fn pow5(s: int) -> int {
    let s2 = s * s;
    let s4 = s2 * s2;
    s4 * s
}

/// The `on` linger at `micros` into the second, for a given frame
/// interval: a quarter-sine ramp (as the integer ratio
/// `4(d² - t²) / (4d² + t²)`) down across the first 750 ms, zero up to
/// 900 ms, then a quintic ramp back up over the final 100 ms. Fractions
/// of a microsecond are floored.
pub open spec fn pwm_on_micros(t: int, interval: int) -> int {
    let d: int = 750_000;
    if t < 750_000 {
        interval * (4 * (d * d - t * t)) / (4 * d * d + t * t)
    } else if t < 900_000 {
        0
    } else {
        let s = t - 900_000;
        interval * pow5(s) / pow5(100_000)
    }
}

/// The `off` linger at `micros` into the second: the rest of the frame
/// interval, up to the floored fraction.
pub open spec fn pwm_off_micros(t: int, interval: int) -> int {
    let d: int = 750_000;
    if t < 750_000 {
        interval * (5 * (t * t)) / (4 * d * d + t * t)
    } else if t < 900_000 {
        interval
    } else {
        let s = t - 900_000;
        interval * (pow5(100_000) - pow5(s)) / pow5(100_000)
    }
}

/// Splitting `total * den` into two floored quotients loses at most one
/// unit.
proof fn lemma_split_div_sum(x: int, y: int, den: int, total: int)
    by (nonlinear_arith)
    requires
        den > 0,
        x >= 0,
        y >= 0,
        x + y == total * den,
    ensures
        total - 1 <= x / den + y / den <= total,
{
}

/// Division preserves an upper bound given as a multiple of the divisor.
proof fn lemma_div_at_most(x: int, den: int, bound: int)
    by (nonlinear_arith)
    requires
        den > 0,
        0 <= x <= bound * den,
    ensures
        0 <= x / den <= bound,
{
}

/// PWM dimming of the seconds display: computes the per-frame duty-cycle
/// split from the sub-second phase.
pub struct PwmAnimation {
    pub frame_interval_us: i64,
}

impl PwmAnimation {
    /// The three-phase duty-cycle policy over the second. The two linger
    /// durations always sum to the frame interval, up to one microsecond
    /// of truncation.
    pub fn pwm_seconds_animation(&self, micros: u32) -> (r: LingerDurations)
        requires
            micros < 1_000_000,
            0 <= self.frame_interval_us <= MAX_FRAME_INTERVAL_MICROS,
        ensures
            r.off == Some(pwm_off_micros(micros as int, self.frame_interval_us as int) as i64),
            r.on == Some(pwm_on_micros(micros as int, self.frame_interval_us as int) as i64),
            ({
                let off = pwm_off_micros(micros as int, self.frame_interval_us as int);
                let on = pwm_on_micros(micros as int, self.frame_interval_us as int);
                &&& 0 <= on <= self.frame_interval_us
                &&& 0 <= off <= self.frame_interval_us
                &&& self.frame_interval_us - 1 <= off + on <= self.frame_interval_us
            }),
    {
        let interval = self.frame_interval_us as u128;
        if micros < FLICKER_WINDOW_MICROS {
            let t = micros as u128;
            proof {
                assert(0 <= (t as int) * (t as int) && (t as int) * (t as int) < 750_000 * 750_000) by (nonlinear_arith)
                    requires
                        0 <= t as int && (t as int) < 750_000,
                ;
            }
            let tt: u128 = t * t;
            let dd: u128 = 562_500_000_000;
            let num: u128 = 4 * (dd - tt);
            let den: u128 = 4 * dd + tt;
            proof {
                assert((interval as int) * (num as int) <= 10_000_000 * (4 * 562_500_000_000))
                    by (nonlinear_arith)
                    requires
                        0 <= interval as int && interval as int <= 10_000_000,
                        0 <= num as int && num as int <= 4 * 562_500_000_000,
                ;
                assert((interval as int) * (den as int - num as int) <= 10_000_000 * (5
                    * 562_500_000_000)) by (nonlinear_arith)
                    requires
                        0 <= interval as int && interval as int <= 10_000_000,
                        0 <= den as int - num as int && den as int - num as int <= 5 * 562_500_000_000,
                ;
            }
            let on128: u128 = (interval * num) / den;
            let off128: u128 = (interval * (den - num)) / den;
            proof {
                assert((interval as int) * (num as int) <= (interval as int) * (den as int))
                    by (nonlinear_arith)
                    requires
                        0 <= interval as int,
                        0 <= num as int && num as int <= den as int,
                ;
                assert((interval as int) * (den as int - num as int) <= (interval as int) * (
                den as int)) by (nonlinear_arith)
                    requires
                        0 <= interval as int,
                        0 <= den as int - num as int && den as int - num as int <= den as int,
                ;
                lemma_div_at_most((interval as int) * (num as int), den as int, interval as int);
                lemma_div_at_most(
                    (interval as int) * (den as int - num as int),
                    den as int,
                    interval as int,
                );
                assert((interval as int) * (num as int) + (interval as int) * (den as int - num as int)
                    == (interval as int) * (den as int)) by (nonlinear_arith);
                lemma_split_div_sum(
                    (interval as int) * (num as int),
                    (interval as int) * (den as int - num as int),
                    den as int,
                    interval as int,
                );
                assert(num as int == 4 * (750_000 * 750_000 - (micros as int) * (micros as int)));
                assert(den as int == 4 * 750_000 * 750_000 + (micros as int) * (micros as int));
                assert(den as int - num as int == 5 * ((micros as int) * (micros as int)));
            }
            LingerDurations { off: Some(off128 as i64), on: Some(on128 as i64) }
        } else if micros < RAMP_DOWN_START_MICROS {
            LingerDurations { off: Some(self.frame_interval_us), on: Some(0) }
        } else {
            let s = (micros - RAMP_DOWN_START_MICROS) as u128;
            proof {
                assert(0 <= (s as int) * (s as int) && (s as int) * (s as int) < 100_000 * 100_000) by (nonlinear_arith)
                    requires
                        0 <= s as int && (s as int) < 100_000,
                ;
            }
            let s2: u128 = s * s;
            proof {
                assert(0 <= (s2 as int) * (s2 as int) && (s2 as int) * (s2 as int) <= 10_000_000_000 * 10_000_000_000)
                    by (nonlinear_arith)
                    requires
                        0 <= s2 as int && s2 as int <= 10_000_000_000,
                ;
            }
            let s4: u128 = s2 * s2;
            proof {
                assert(0 <= (s4 as int) * (s as int) && (s4 as int) * (s as int) <= 100_000_000_000_000_000_000 * 100_000)
                    by (nonlinear_arith)
                    requires
                        0 <= s4 as int && s4 as int <= 100_000_000_000_000_000_000,
                        0 <= s as int && s as int <= 100_000,
                ;
            }
            let s5: u128 = s4 * s;
            let den: u128 = 10_000_000_000_000_000_000_000_000;
            proof {
                assert(s5 as int <= den as int);
                assert((interval as int) * (s5 as int) <= 10_000_000 * 10_000_000_000_000_000_000_000_000)
                    by (nonlinear_arith)
                    requires
                        0 <= interval as int && interval as int <= 10_000_000,
                        0 <= s5 as int && s5 as int <= 10_000_000_000_000_000_000_000_000,
                ;
                assert((interval as int) * (den as int - s5 as int) <= 10_000_000
                    * 10_000_000_000_000_000_000_000_000) by (nonlinear_arith)
                    requires
                        0 <= interval as int && interval as int <= 10_000_000,
                        0 <= den as int - s5 as int && den as int - s5 as int <= 10_000_000_000_000_000_000_000_000,
                ;
            }
            let on128: u128 = (interval * s5) / den;
            let off128: u128 = (interval * (den - s5)) / den;
            proof {
                assert(pow5(100_000) == den as int);
                assert(pow5(s as int) == s5 as int);
                assert((interval as int) * (s5 as int) <= (interval as int) * (den as int))
                    by (nonlinear_arith)
                    requires
                        0 <= interval as int,
                        0 <= s5 as int && s5 as int <= den as int,
                ;
                assert((interval as int) * (den as int - s5 as int) <= (interval as int) * (
                den as int)) by (nonlinear_arith)
                    requires
                        0 <= interval as int,
                        0 <= den as int - s5 as int && den as int - s5 as int <= den as int,
                ;
                lemma_div_at_most((interval as int) * (s5 as int), den as int, interval as int);
                lemma_div_at_most(
                    (interval as int) * (den as int - s5 as int),
                    den as int,
                    interval as int,
                );
                assert((interval as int) * (s5 as int) + (interval as int) * (den as int - s5 as int)
                    == (interval as int) * (den as int)) by (nonlinear_arith);
                lemma_split_div_sum(
                    (interval as int) * (s5 as int),
                    (interval as int) * (den as int - s5 as int),
                    den as int,
                    interval as int,
                );
            }
            LingerDurations { off: Some(off128 as i64), on: Some(on128 as i64) }
        }
    }
}

/// The character for one decimal digit.
pub open spec fn digit_char(n: int) -> char {
    if n == 0 {
        '0'
    } else if n == 1 {
        '1'
    } else if n == 2 {
        '2'
    } else if n == 3 {
        '3'
    } else if n == 4 {
        '4'
    } else if n == 5 {
        '5'
    } else if n == 6 {
        '6'
    } else if n == 7 {
        '7'
    } else if n == 8 {
        '8'
    } else {
        '9'
    }
}

/// A zero-padded two-digit rendering.
pub open spec fn two_digit_chars(n: int) -> Seq<char> {
    seq![digit_char(n / 10), digit_char(n % 10)]
}

/// The rendered base time string: `HH:MM:SS.mmm ` on the twelve-slot
/// layout (12-hour dial, milliseconds, a trailing blank for the
/// multi-glyph tube), `HH:MM:SS` on the eight-slot one.
pub open spec fn time_string_spec(t: ClockTime, clock_type: ClockType) -> Seq<char> {
    let head = two_digit_chars(t.hour12 as int) + seq![':'] + two_digit_chars(
        t.minute_of_hour_spec(),
    ) + seq![':'] + two_digit_chars(t.second_of_minute_spec());
    match clock_type {
        ClockType::NCS3148C => {
            let ms = t.subsec_millis_spec();
            head + seq!['.'] + seq![digit_char(ms / 100), digit_char((ms / 10) % 10), digit_char(ms % 10)]
                + seq![' ']
        },
        ClockType::NCS3186 => head,
    }
}

/// `c` with the separator glyphs blanked out.
pub open spec fn blanked_sep_char(c: char) -> char {
    if c == ':' || c == '.' {
        ' '
    } else {
        c
    }
}

/// A whole string with its separator glyphs blanked out.
pub open spec fn blanked_chars(s: Seq<char>) -> Seq<char> {
    Seq::new(s.len(), |i: int| blanked_sep_char(s[i]))
}

/// Appends the character for one decimal digit.
fn push_digit(out: &mut String, n: u32)
    requires
        n < 10,
    ensures
        final(out)@ == old(out)@ + seq![digit_char(n as int)],
{
    let piece: &str = match n {
        0 => "0",
        1 => "1",
        2 => "2",
        3 => "3",
        4 => "4",
        5 => "5",
        6 => "6",
        7 => "7",
        8 => "8",
        _ => "9",
    };
    proof {
        reveal_strlit("0");
        reveal_strlit("1");
        reveal_strlit("2");
        reveal_strlit("3");
        reveal_strlit("4");
        reveal_strlit("5");
        reveal_strlit("6");
        reveal_strlit("7");
        reveal_strlit("8");
        reveal_strlit("9");
        assert(piece@ =~= seq![digit_char(n as int)]);
    }
    out.append(piece);
}

/// Appends a zero-padded two-digit rendering.
fn push_two_digits(out: &mut String, n: u32)
    requires
        n < 100,
    ensures
        final(out)@ == old(out)@ + two_digit_chars(n as int),
{
    push_digit(out, n / 10);
    push_digit(out, n % 10);
    proof {
        assert(final(out)@ =~= old(out)@ + two_digit_chars(n as int));
    }
}

/// Renders the base time string for a clock layout from a wall-clock
/// reading.
pub struct DisplayMessageStringUtils {}

impl DisplayMessageStringUtils {
    /// The base time string for this instant: thirteen characters for the
    /// twelve-slot layout, eight for the other.
    pub fn for_local(local: &ClockTime, clock_type: ClockType) -> (r: String)
        requires
            local.wf(),
        ensures
            r@ == time_string_spec(*local, clock_type),
            clock_type == ClockType::NCS3148C ==> r@.len() == 13,
            clock_type == ClockType::NCS3186 ==> r@.len() == 8,
    {
        let mut out = String::new();
        push_two_digits(&mut out, local.hour12 as u32);
        proof {
            reveal_strlit(":");
            reveal_strlit(".");
            reveal_strlit(" ");
            assert(":"@ =~= seq![':']);
            assert("."@ =~= seq!['.']);
            assert(" "@ =~= seq![' ']);
        }
        out.append(":");
        push_two_digits(&mut out, local.minute_of_hour());
        out.append(":");
        push_two_digits(&mut out, local.second_of_minute());
        match clock_type {
            ClockType::NCS3148C => {
                out.append(".");
                let ms = local.subsec_millis();
                push_digit(&mut out, ms / 100);
                push_digit(&mut out, (ms / 10) % 10);
                push_digit(&mut out, ms % 10);
                out.append(" ");
                proof {
                    assert(out@ =~= time_string_spec(*local, clock_type));
                }
                out
            },
            ClockType::NCS3186 => {
                proof {
                    assert(out@ =~= time_string_spec(*local, clock_type));
                }
                out
            },
        }
    }

    /// The same string with every `':'` and `'.'` replaced by a blank:
    /// what the frame shows when the separator flicker gates the
    /// separators off.
    pub fn blank_separators(s: &str) -> (r: String)
        ensures
            r@ == blanked_chars(s@),
            r@.len() == s@.len(),
            forall|i: int| 0 <= i < s@.len() ==> r@[i] == blanked_sep_char(s@[i]),
    {
        let len = s.unicode_len();
        let mut out = String::new();
        let mut i: usize = 0;
        while i < len
            invariant
                len == s@.len(),
                i <= len,
                out@.len() == i,
                forall|j: int| 0 <= j < i ==> out@[j] == blanked_sep_char(s@[j]),
            decreases len - i,
        {
            let c = s.get_char(i);
            if c == ':' || c == '.' {
                proof {
                    reveal_strlit(" ");
                    assert(" "@ =~= seq![' ']);
                }
                out.append(" ");
            } else {
                let piece = s.substring_char(i, i + 1);
                proof {
                    assert(piece@ =~= seq![s@[i as int]]);
                }
                out.append(piece);
            }
            i += 1;
        }
        proof {
            assert(out@ =~= blanked_chars(s@));
        }
        out
    }
}

/// Upper bound on an overlay's anchor instant: a clock reading plus a
/// minute of headroom.
pub const MAX_ANCHOR_MICROS: u64 = 4_000_001_000_000_000;

/// Upper bound on an overlay's lifetime (one day).
pub const MAX_OVERLAY_DURATION_MICROS: u64 = 86_400_000_000;

/// How the cycling characters of an anti-poison overlay are ordered.
#[derive(Debug, Copy, Clone, PartialEq, Eq, Structural)]
pub enum AntiPoisonAnimationStyle {
    Random,
    Sequential,
}

/// The overlay glyph an anti-poison overlay shows `t` microseconds into
/// its lifetime of `d` microseconds, once the random draw is fixed. The
/// cycle position advances linearly at 70 steps per lifetime, modulo the
/// cycle length. Within `fade_pct` percent of the lifetime from either
/// end, a linear ease scaled to 255 is pitted against the draw, so the
/// overlay blends in and out of the underlying glyph; `None` means the
/// base glyph shows through this frame.
pub open spec fn anti_poison_value_spec(
    cycle: Seq<char>,
    t: int,
    d: int,
    fade_pct: int,
    draw: int,
) -> Option<char> {
    let pos = (70 * t / d) % (cycle.len() as int);
    let cur = cycle[pos];
    let w = d * fade_pct / 100;
    if t < w {
        if draw > 255 * t / w {
            None
        } else {
            Some(cur)
        }
    } else if t > d - w {
        if draw > 255 * (t - (d - w)) / w {
            Some(cur)
        } else {
            None
        }
    } else {
        Some(cur)
    }
}

/// Evaluates the anti-poison glyph choice in executable arithmetic.
fn anti_poison_value(cycle: &Vec<char>, t: u64, d: u64, fade_pct: u8, draw: u8) -> (r: Option<
    char,
>)
    requires
        0 < t < d,
        d <= MAX_OVERLAY_DURATION_MICROS,
        cycle@.len() > 0,
        fade_pct <= 100,
    ensures
        r == anti_poison_value_spec(cycle@, t as int, d as int, fade_pct as int, draw as int),
{
    proof {
        assert(70 * (t as int) < 70 * (d as int));
        vstd::arithmetic::div_mod::lemma_multiply_divide_lt(70 * (t as int), d as int, 70);
        assert((d as int) * (fade_pct as int) <= 86_400_000_000 * 100) by (nonlinear_arith)
            requires
                0 <= d as int && d as int <= 86_400_000_000,
                0 <= fade_pct as int && fade_pct as int <= 100,
        ;
    }
    let pos = ((70 * t / d) as usize) % cycle.len();
    let cur = cycle[pos];
    let w = d * (fade_pct as u64) / 100;
    if t < w {
        let in_p = 255 * t / w;
        if (draw as u64) > in_p {
            None
        } else {
            Some(cur)
        }
    } else if t > d - w {
        let out_p = 255 * (t - (d - w)) / w;
        if (draw as u64) > out_p {
            Some(cur)
        } else {
            None
        }
    } else {
        Some(cur)
    }
}

/// A time-bounded overlay that cycles one numeric tube through its digits
/// to push back cathode poisoning, fading in and out at its edges.
#[derive(Debug)]
pub struct AntiPoisonAnimation {
    pub tube_idx: usize,
    pub style: AntiPoisonAnimationStyle,
    /// Anchor instant, microseconds on the local civil timeline.
    pub start_time: u64,
    /// Lifetime in microseconds.
    pub duration: u64,
    pub cycle: Vec<char>,
    pub fade_pct: u8,
}

impl AntiPoisonAnimation {
    /// The cycling character sequence, in display order.
    pub open spec fn cycle_view(&self) -> Seq<char> {
        self.cycle@
    }

    /// The fade window, in percent of the lifetime per side.
    pub open spec fn fade_pct_spec(&self) -> int {
        self.fade_pct as int
    }

    pub open spec fn wf(&self) -> bool {
        &&& self.start_time <= MAX_ANCHOR_MICROS
        &&& 0 < self.duration <= MAX_OVERLAY_DURATION_MICROS
        &&& self.cycle_view().len() > 0
        &&& self.fade_pct_spec() <= 100
    }

    /// Visible strictly between the anchor and the anchor plus the
    /// lifetime.
    pub open spec fn is_visible_at(&self, now: int) -> bool {
        self.start_time < now < self.start_time + self.duration
    }

    /// Expired at or past the anchor plus the lifetime.
    pub open spec fn has_ended_at(&self, now: int) -> bool {
        self.start_time + self.duration <= now
    }

    /// Builds an overlay; a `Random` style shuffles the cycle once, here
    /// at creation.
    pub fn new(
        tube_idx: usize,
        style: AntiPoisonAnimationStyle,
        start_time: u64,
        duration: u64,
        cycle: Vec<char>,
        fade_pct: u8,
    ) -> (r: AntiPoisonAnimation)
        requires
            start_time <= MAX_ANCHOR_MICROS,
            0 < duration <= MAX_OVERLAY_DURATION_MICROS,
            cycle@.len() > 0,
            fade_pct <= 100,
        ensures
            r.wf(),
            r.tube_idx == tube_idx,
            r.style == style,
            r.start_time == start_time,
            r.duration == duration,
            r.fade_pct_spec() == fade_pct,
            r.cycle_view().to_multiset() == cycle@.to_multiset(),
            r.cycle_view().len() == cycle@.len(),
            style == AntiPoisonAnimationStyle::Sequential ==> r.cycle_view() == cycle@,
    {
        let mut retval = AntiPoisonAnimation {
            tube_idx,
            style,
            start_time,
            duration,
            cycle,
            fade_pct,
        };
        if retval.style == AntiPoisonAnimationStyle::Random {
            crate::randomness::shuffle_vec(&mut retval.cycle);
        }
        retval
    }

    pub fn is_visible(&self, current_time: &ClockTime) -> (r: bool)
        requires
            self.wf(),
            current_time.wf(),
        ensures
            r == self.is_visible_at(current_time.epoch_micros as int),
    {
        self.start_time < current_time.epoch_micros && current_time.epoch_micros
            < self.start_time + self.duration
    }

    pub fn has_ended(&self, current_time: &ClockTime) -> (r: bool)
        requires
            self.wf(),
            current_time.wf(),
        ensures
            r == self.has_ended_at(current_time.epoch_micros as int),
    {
        self.start_time + self.duration <= current_time.epoch_micros
    }

    /// The glyph to show at this visible instant, or `None` to reveal the
    /// underlying time glyph. The draw is random; outside the fade
    /// windows the cycle glyph shows whatever was drawn.
    pub fn get_current_value(&self, current_time: &ClockTime) -> (r: Option<char>)
        requires
            self.wf(),
            current_time.wf(),
            self.is_visible_at(current_time.epoch_micros as int),
        ensures
            exists|draw: int|
                0 <= draw < 255 && r == #[trigger] anti_poison_value_spec(
                    self.cycle_view(),
                    current_time.epoch_micros - self.start_time,
                    self.duration as int,
                    self.fade_pct_spec(),
                    draw,
                ),
            ({
                let t = current_time.epoch_micros - self.start_time;
                let d = self.duration as int;
                let w = d * self.fade_pct_spec() / 100;
                !(t < w) && !(t > d - w) ==> r == Some(
                    self.cycle_view()[(70 * t / d) % (self.cycle_view().len() as int)],
                )
            }),
    {
        let t = current_time.epoch_micros - self.start_time;
        let draw32 = crate::randomness::random_in_range(0, 255);
        let draw = draw32 as u8;
        let r = anti_poison_value(&self.cycle, t, self.duration, self.fade_pct, draw);
        proof {
            assert(0 <= draw as int && (draw as int) < 255 && r == anti_poison_value_spec(
                self.cycle_view(),
                current_time.epoch_micros - self.start_time,
                self.duration as int,
                self.fade_pct_spec(),
                draw as int,
            ));
        }
        r
    }

    /// The message relation `apply_to_message` establishes for one fixed
    /// draw: an invisible frame or a `None` glyph leaves the message
    /// untouched; a glyph outside the target slot's alphabet (or a target
    /// outside the layout) is the strict rejection, also leaving the
    /// message untouched; otherwise exactly the target slot is rewritten.
    pub open spec fn apply_outcome(
        &self,
        mold: NCS3148CMessage,
        mnew: NCS3148CMessage,
        r: DisplayMessageResult<()>,
        draw: int,
        now: int,
    ) -> bool {
        let v = anti_poison_value_spec(
            self.cycle_view(),
            now - self.start_time,
            self.duration as int,
            self.fade_pct_spec(),
            draw,
        );
        match v {
            None => r is Ok && mnew == mold,
            Some(c) => match NCS3148CMessage::tube_error_for(self.tube_idx as int, c) {
                Some(e) => r == Err::<(), DisplayMessageError>(e) && mnew == mold,
                None => r is Ok && NCS3148CMessage::slot_encodes(mnew, self.tube_idx as int, c)
                    && NCS3148CMessage::eq_except(mold, mnew, self.tube_idx as int),
            },
        }
    }

    /// Substitutes this overlay's glyph into the in-progress frame when
    /// the overlay is visible.
    pub fn apply_to_message(&self, current_time: &ClockTime, cur_message: &mut NCS3148CMessage) -> (r:
        DisplayMessageResult<()>)
        requires
            self.wf(),
            current_time.wf(),
        ensures
            old(cur_message).wf() ==> final(cur_message).wf(),
            !self.is_visible_at(current_time.epoch_micros as int) ==> (r is Ok
                && *final(cur_message) == *old(cur_message)),
            self.is_visible_at(current_time.epoch_micros as int) ==> exists|draw: int|
                0 <= draw < 255 && #[trigger] self.apply_outcome(
                    *old(cur_message),
                    *final(cur_message),
                    r,
                    draw,
                    current_time.epoch_micros as int,
                ),
    {
        if self.is_visible(current_time) {
            let value = self.get_current_value(current_time);
            match value {
                Some(v) => {
                    let res = cur_message.set_tube(self.tube_idx, v);
                    proof {
                        let draw = choose|draw: int|
                            0 <= draw < 255 && value == #[trigger] anti_poison_value_spec(
                                self.cycle_view(),
                                current_time.epoch_micros - self.start_time,
                                self.duration as int,
                                self.fade_pct_spec(),
                                draw,
                            );
                        assert(self.apply_outcome(
                            *old(cur_message),
                            *cur_message,
                            res,
                            draw,
                            current_time.epoch_micros as int,
                        ));
                    }
                    res
                },
                None => {
                    proof {
                        let draw = choose|draw: int|
                            0 <= draw < 255 && value == #[trigger] anti_poison_value_spec(
                                self.cycle_view(),
                                current_time.epoch_micros - self.start_time,
                                self.duration as int,
                                self.fade_pct_spec(),
                                draw,
                            );
                        assert(self.apply_outcome(
                            *old(cur_message),
                            *cur_message,
                            Ok::<(), DisplayMessageError>(()),
                            draw,
                            current_time.epoch_micros as int,
                        ));
                    }
                    Ok(())
                },
            }
        } else {
            Ok(())
        }
    }
}

/// An overlay is invisible at or before its anchor, and at or past the
/// end of its lifetime: the base glyph always shows through there.
pub proof fn lemma_overlay_invisible_outside_lifetime(a: AntiPoisonAnimation, now: int)
    requires
        now <= a.start_time || now >= a.start_time + a.duration,
    ensures
        !a.is_visible_at(now),
{
}

/// Exactly at the midpoint of an overlay's lifetime, when the midpoint
/// lies outside both fade windows, the overlay always shows a cycle
/// character: no draw can reveal the base glyph.
pub proof fn lemma_anti_poison_midpoint(a: AntiPoisonAnimation, draw: int)
    requires
        a.wf(),
        a.duration as int * a.fade_pct_spec() / 100 < a.duration as int / 2,
        a.duration as int / 2 < a.duration as int - a.duration as int * a.fade_pct_spec() / 100,
    ensures
        ({
            let t = a.duration as int / 2;
            let pos = (70 * t / (a.duration as int)) % (a.cycle_view().len() as int);
            &&& 0 <= pos < a.cycle_view().len()
            &&& anti_poison_value_spec(a.cycle_view(), t, a.duration as int, a.fade_pct_spec(), draw)
                == Some(a.cycle_view()[pos])
        }),
{
}

/// Signed division truncating towards zero, as hardware integer division
/// performs it.
pub open spec fn div_trunc(a: int, b: int) -> int {
    if a >= 0 {
        a / b
    } else {
        -((-a) / b)
    }
}

/// Signed remainder with the dividend's sign, the companion of
/// [`div_trunc`].
pub open spec fn rem_trunc(a: int, b: int) -> int {
    if a >= 0 {
        a % b
    } else {
        -((-a) % b)
    }
}

/// A temperature value in hundredths of a degree, rendered with two
/// decimal places: an optional minus sign, one or two integer digits, a
/// point and two fractional digits. Meant for `-10000 < v < 10000`.
pub open spec fn temp_value_chars(v: int) -> Seq<char> {
    let mag = if v < 0 {
        -v
    } else {
        v
    };
    let ip = mag / 100;
    let fp = mag % 100;
    let digits = if ip >= 10 {
        seq![digit_char(ip / 10), digit_char(ip % 10)]
    } else {
        seq![digit_char(ip)]
    };
    let frac = seq!['.', digit_char(fp / 10), digit_char(fp % 10)];
    if v < 0 {
        seq!['-'] + digits + frac
    } else {
        digits + frac
    }
}

/// The temperature overlay's message string: the Fahrenheit conversion
/// and, on the twelve-slot layout, also the Celsius value, each wrapped
/// modulo 100 degrees to fit the tube width, joined by the top-indicator
/// separator. The twelve-slot layout closes with the Celsius glyph; the
/// other pads with blanks.
pub open spec fn temperature_string(c_centi: int, clock_type: ClockType) -> Seq<char> {
    let f = div_trunc(9 * c_centi, 5) + 3200;
    let fw = rem_trunc(f, 10000);
    let cw = rem_trunc(c_centi, 10000);
    match clock_type {
        ClockType::NCS3148C => temp_value_chars(fw) + seq!['\''] + temp_value_chars(cw) + seq![
            '℃',
        ],
        ClockType::NCS3186 => temp_value_chars(fw) + seq!['\'', ' ', ' '],
    }
}

/// Appends the two-decimal rendering of a temperature value given as sign
/// and wrapped magnitude.
fn push_temp_value(out: &mut String, neg: bool, mag: u32)
    requires
        mag < 10000,
    ensures
        final(out)@ == old(out)@ + temp_value_chars(
            if neg && mag > 0 {
                -(mag as int)
            } else {
                mag as int
            },
        ),
{
    let ghost v: int = if neg && mag > 0 {
        -(mag as int)
    } else {
        mag as int
    };
    if neg && mag > 0 {
        proof {
            reveal_strlit("-");
            assert("-"@ =~= seq!['-']);
        }
        out.append("-");
    }
    let ip = mag / 100;
    let fp = mag % 100;
    if ip >= 10 {
        push_digit(out, ip / 10);
        push_digit(out, ip % 10);
    } else {
        push_digit(out, ip);
    }
    proof {
        reveal_strlit(".");
        assert("."@ =~= seq!['.']);
    }
    out.append(".");
    push_digit(out, fp / 10);
    push_digit(out, fp % 10);
    proof {
        assert(final(out)@ =~= old(out)@ + temp_value_chars(v));
    }
}

/// Splits a value into sign and magnitude wrapped modulo 10000, matching
/// the truncating remainder.
fn wrap_temp(v: i32) -> (r: (bool, u32))
    requires
        -100_000_000 <= v <= 100_000_000,
    ensures
        r.1 < 10000,
        rem_trunc(v as int, 10000) == if r.0 && r.1 > 0 {
            -(r.1 as int)
        } else {
            r.1 as int
        },
{
    if v >= 0 {
        (false, (v as u32) % 10000)
    } else {
        (true, ((-v) as u32) % 10000)
    }
}

/// Renders the overlay string for a temperature reading in hundredths of
/// a degree Celsius.
fn format_temperature(c: i16, clock_type: ClockType) -> (r: String)
    ensures
        r@ == temperature_string(c as int, clock_type),
{
    let c32 = c as i32;
    let nine = 9 * c32;
    let f_term: i32 = if nine >= 0 {
        ((nine as u32) / 5) as i32
    } else {
        -((((-nine) as u32) / 5) as i32)
    };
    let f = f_term + 3200;
    proof {
        assert(f as int == div_trunc(9 * (c as int), 5) + 3200);
    }
    let (fneg, fmag) = wrap_temp(f);
    let (cneg, cmag) = wrap_temp(c32);
    let mut out = String::new();
    push_temp_value(&mut out, fneg, fmag);
    proof {
        reveal_strlit("'");
        assert("'"@ =~= seq!['\'']);
    }
    out.append("'");
    match clock_type {
        ClockType::NCS3148C => {
            push_temp_value(&mut out, cneg, cmag);
            proof {
                reveal_strlit("℃");
                assert("℃"@ =~= seq!['℃']);
            }
            out.append("℃");
            proof {
                assert(out@ =~= temperature_string(c as int, clock_type));
            }
            out
        },
        ClockType::NCS3186 => {
            proof {
                reveal_strlit("  ");
                assert("  "@ =~= seq![' ', ' ']);
            }
            out.append("  ");
            proof {
                assert(out@ =~= temperature_string(c as int, clock_type));
            }
            out
        },
    }
}

/// A time-bounded overlay that replaces the whole display with the
/// current temperature once per minute, reading the shared cell lazily
/// and at most once in its lifetime.
pub struct TempOverlayAnimation {
    /// Anchor instant, microseconds on the local civil timeline.
    pub start_time: u64,
    /// Lifetime in microseconds.
    pub duration: u64,
    /// Lazily cached reading: `Some` once the shared cell has been
    /// consulted, holding whatever the cell then answered. A cached
    /// `Some(None)` means "checked, nothing to show" and is never
    /// retried for this overlay's lifetime.
    pub temperature_celsius: Option<Option<i16>>,
    pub temperature_lock: TemperatureCell,
    pub clock_type: ClockType,
}

/// All twelve slots of the larger layout, after a strict write of the
/// first `upto` characters of `s`; the lingers are left to a separate
/// clause.
pub open spec fn temp_slots_updated(
    mold: NCS3148CMessage,
    mnew: NCS3148CMessage,
    s: Seq<char>,
    upto: int,
) -> bool {
    &&& NCS3148CMessage::prefix_slot_num(mold.t0, mnew.t0, s, upto, 0)
    &&& NCS3148CMessage::prefix_slot_num(mold.t1, mnew.t1, s, upto, 1)
    &&& NCS3148CMessage::prefix_slot_sep(mold.s0, mnew.s0, s, upto, 2)
    &&& NCS3148CMessage::prefix_slot_num(mold.t2, mnew.t2, s, upto, 3)
    &&& NCS3148CMessage::prefix_slot_num(mold.t3, mnew.t3, s, upto, 4)
    &&& NCS3148CMessage::prefix_slot_sep(mold.s1, mnew.s1, s, upto, 5)
    &&& NCS3148CMessage::prefix_slot_num(mold.t4, mnew.t4, s, upto, 6)
    &&& NCS3148CMessage::prefix_slot_num(mold.t5, mnew.t5, s, upto, 7)
    &&& NCS3148CMessage::prefix_slot_sep(mold.s2, mnew.s2, s, upto, 8)
    &&& NCS3148CMessage::prefix_slot_num(mold.t6, mnew.t6, s, upto, 9)
    &&& NCS3148CMessage::prefix_slot_num(mold.t7, mnew.t7, s, upto, 10)
    &&& NCS3148CMessage::prefix_slot_glyph(mold.t8, mnew.t8, s, upto, 11)
}

impl TempOverlayAnimation {
    pub open spec fn wf(&self) -> bool {
        &&& self.start_time <= MAX_ANCHOR_MICROS
        &&& 0 < self.duration <= MAX_OVERLAY_DURATION_MICROS
    }

    /// Visible strictly between the anchor and the anchor plus the
    /// lifetime.
    pub open spec fn is_visible_at(&self, now: int) -> bool {
        self.start_time < now < self.start_time + self.duration
    }

    /// Expired at or past the anchor plus the lifetime.
    pub open spec fn has_ended_at(&self, now: int) -> bool {
        self.start_time + self.duration <= now
    }

    /// Builds the overlay for the current minute, anchored to second 16,
    /// with a fresh handle to the shared temperature cell and an empty
    /// cache.
    pub fn new(temperature_lock: TemperatureCell, clock_type: ClockType, now: &ClockTime) -> (r:
        TempOverlayAnimation)
        requires
            now.wf(),
        ensures
            r.wf(),
            r.start_time == now.minute_start_spec() + 16 * 1_000_000 + now.subsec_micros_spec(),
            r.duration == 3_000_000,
            r.temperature_celsius is None,
            r.clock_type == clock_type,
    {
        let start = now.minute_start_micros() + 16 * 1_000_000 + (now.subsec_micros() as u64);
        TempOverlayAnimation {
            start_time: start,
            duration: 3_000_000,
            temperature_celsius: None,
            temperature_lock,
            clock_type,
        }
    }

    pub fn is_visible(&self, current_time: &ClockTime) -> (r: bool)
        requires
            self.wf(),
            current_time.wf(),
        ensures
            r == self.is_visible_at(current_time.epoch_micros as int),
    {
        self.start_time < current_time.epoch_micros && current_time.epoch_micros
            < self.start_time + self.duration
    }

    pub fn has_ended(&self, current_time: &ClockTime) -> (r: bool)
        requires
            self.wf(),
            current_time.wf(),
        ensures
            r == self.has_ended_at(current_time.epoch_micros as int),
    {
        self.start_time + self.duration <= current_time.epoch_micros
    }

    /// The rendered temperature string, if a reading is available. The
    /// first call consults the shared cell and caches whatever it
    /// answers; a cached "no reading" suppresses the overlay without
    /// retrying.
    pub fn get_temperature_string(&mut self) -> (r: Option<String>)
        ensures
            final(self).start_time == old(self).start_time,
            final(self).duration == old(self).duration,
            final(self).clock_type == old(self).clock_type,
            final(self).temperature_lock == old(self).temperature_lock,
            old(self).temperature_celsius is Some ==> final(self).temperature_celsius == old(
                self,
            ).temperature_celsius,
            final(self).temperature_celsius is Some,
            match final(self).temperature_celsius {
                Some(None) => r is None,
                Some(Some(t)) => r matches Some(s) && s@ == temperature_string(
                    t as int,
                    old(self).clock_type,
                ),
                None => false,
            },
    {
        if self.temperature_celsius.is_none() {
            let reading = self.temperature_lock.read();
            self.temperature_celsius = Some(reading);
        }
        match self.temperature_celsius {
            Some(Some(cur_temp)) => Some(format_temperature(cur_temp, self.clock_type)),
            _ => None,
        }
    }

    /// Replaces the whole message with the temperature rendering while
    /// the overlay is visible and a reading is available, and overrides
    /// the frame's linger durations with the overlay's own.
    pub fn apply_to_message(
        &mut self,
        current_time: &ClockTime,
        cur_message: &mut NCS3148CMessage,
    ) -> (r: DisplayMessageResult<()>)
        requires
            old(self).wf(),
            current_time.wf(),
        ensures
            final(self).wf(),
            final(self).start_time == old(self).start_time,
            final(self).duration == old(self).duration,
            final(self).clock_type == old(self).clock_type,
            final(self).temperature_lock == old(self).temperature_lock,
            old(cur_message).wf() ==> final(cur_message).wf(),
            !old(self).is_visible_at(current_time.epoch_micros as int) ==> (r is Ok
                && *final(self) == *old(self) && *final(cur_message) == *old(cur_message)),
            old(self).is_visible_at(current_time.epoch_micros as int) ==> ({
                &&& old(self).temperature_celsius is Some ==> final(self).temperature_celsius
                    == old(self).temperature_celsius
                &&& final(self).temperature_celsius is Some
                &&& match final(self).temperature_celsius {
                    Some(None) => r is Ok && *final(cur_message) == *old(cur_message),
                    Some(Some(t)) => ({
                        let sseq = temperature_string(t as int, old(self).clock_type);
                        let fb = NCS3148CMessage::first_reject_from(sseq, 0);
                        if fb == -1 {
                            &&& r is Ok
                            &&& temp_slots_updated(
                                *old(cur_message),
                                *final(cur_message),
                                sseq,
                                sseq.len() as int,
                            )
                            &&& final(cur_message).lingers == (LingerDurations {
                                off: Some(0i64),
                                on: Some(99i64),
                            })
                        } else {
                            &&& r == Err::<(), DisplayMessageError>(
                                if fb >= 12 {
                                    DisplayMessageError::TubeIndexOutOfRange
                                } else {
                                    DisplayMessageError::UnexpectedCharForTubeType
                                },
                            )
                            &&& temp_slots_updated(*old(cur_message), *final(cur_message), sseq, fb)
                            &&& final(cur_message).lingers == old(cur_message).lingers
                        }
                    }),
                    None => false,
                }
            }),
    {
        if self.is_visible(current_time) {
            match self.get_temperature_string() {
                Some(temp_string) => {
                    match cur_message.set_from_string(temp_string) {
                        Ok(_) => {
                            let lres = cur_message.set_lingers(
                                LingerDurations { off: Some(0), on: Some(99) },
                            );
                            match lres {
                                Ok(_) => Ok(()),
                                Err(e) => Err(e),
                            }
                        },
                        Err(e) => Err(e),
                    }
                },
                None => Ok(()),
            }
        } else {
            Ok(())
        }
    }
}

/// A tagged variant over the two overlay kinds the scheduler owns.
pub enum Overlay {
    AntiPoison(AntiPoisonAnimation),
    TempOverlay(TempOverlayAnimation),
}

impl Overlay {
    pub open spec fn wf(&self) -> bool {
        match self {
            Overlay::AntiPoison(a) => a.wf(),
            Overlay::TempOverlay(t) => t.wf(),
        }
    }

    pub open spec fn start_spec(&self) -> int {
        match self {
            Overlay::AntiPoison(a) => a.start_time as int,
            Overlay::TempOverlay(t) => t.start_time as int,
        }
    }

    pub open spec fn end_spec(&self) -> int {
        match self {
            Overlay::AntiPoison(a) => a.start_time + a.duration,
            Overlay::TempOverlay(t) => t.start_time + t.duration,
        }
    }

    pub open spec fn has_ended_at(&self, now: int) -> bool {
        self.end_spec() <= now
    }

    pub open spec fn is_visible_at(&self, now: int) -> bool {
        match self {
            Overlay::AntiPoison(a) => a.is_visible_at(now),
            Overlay::TempOverlay(t) => t.is_visible_at(now),
        }
    }

    /// Anchored within the given minute: the overlay starts at or after
    /// the minute begins and expires before the next minute does.
    pub open spec fn anchored_to_minute(&self, minute_index: int) -> bool {
        &&& minute_index * 60_000_000 <= self.start_spec()
        &&& self.end_spec() < (minute_index + 1) * 60_000_000
    }

    pub open spec fn is_anti_poison(&self) -> bool {
        self is AntiPoison
    }

    pub fn has_ended(&self, current_time: &ClockTime) -> (r: bool)
        requires
            self.wf(),
            current_time.wf(),
        ensures
            r == self.has_ended_at(current_time.epoch_micros as int),
    {
        match self {
            Overlay::AntiPoison(a) => a.has_ended(current_time),
            Overlay::TempOverlay(t) => t.has_ended(current_time),
        }
    }

    /// The anchor instant, microseconds on the local civil timeline.
    pub fn start_micros(&self) -> (r: u64)
        ensures
            r == self.start_spec(),
    {
        match self {
            Overlay::AntiPoison(a) => a.start_time,
            Overlay::TempOverlay(t) => t.start_time,
        }
    }
}

/// The full digit alphabet an anti-poison overlay cycles through.
pub open spec fn digit_cycle_chars() -> Seq<char> {
    seq!['0', '1', '2', '3', '4', '5', '6', '7', '8', '9']
}

/// The tube position an anti-poison overlay targets; the temperature
/// overlay targets no single tube.
pub open spec fn overlay_position(o: Overlay) -> int {
    match o {
        Overlay::AntiPoison(a) => a.tube_idx as int,
        Overlay::TempOverlay(_) => -1,
    }
}

/// A numeric tube position that may receive an anti-poison overlay:
/// the hour, minute and second tubes. The sub-second tubes change too
/// fast to be at poisoning risk and are excluded, as are the separators.
pub open spec fn is_eligible_position(p: int) -> bool {
    p == 0 || p == 1 || p == 3 || p == 4 || p == 6 || p == 7
}

/// What every overlay of a freshly generated anti-poison batch satisfies:
/// a well-formed `Random`-style overlay on an eligible tube, two seconds
/// long, cycling a permutation of the ten digits, anchored to a second in
/// `[5, 55)` of the current minute.
pub open spec fn matrix_overlay_ok(o: Overlay, minute_start: int) -> bool {
    match o {
        Overlay::AntiPoison(a) => {
            &&& a.wf()
            &&& a.style == AntiPoisonAnimationStyle::Random
            &&& a.duration == 2_000_000
            &&& is_eligible_position(a.tube_idx as int)
            &&& a.cycle_view().len() == 10
            &&& a.cycle_view().to_multiset() == digit_cycle_chars().to_multiset()
            &&& minute_start + 5_000_000 <= a.start_time
            &&& a.start_time < minute_start + 55_000_000
            &&& a.start_time + a.duration < minute_start + 60_000_000
        },
        Overlay::TempOverlay(_) => false,
    }
}

impl AntiPoisonAnimation {
    /// Generates the minute's randomized batch of anti-poison overlays: a
    /// random subset of the eligible tube positions — each position at
    /// most once — each anchored to a random second of the minute away
    /// from its edges, cycling the full digit alphabet in a fresh random
    /// order.
    pub fn matrix_style_set(now: &ClockTime) -> (r: Vec<Overlay>)
        requires
            now.wf(),
        ensures
            r@.len() < 6,
            forall|k: int|
                0 <= k < r@.len() ==> #[trigger] matrix_overlay_ok(
                    r@[k],
                    now.minute_start_spec(),
                ),
            forall|k1: int, k2: int|
                0 <= k1 < r@.len() && 0 <= k2 < r@.len() && k1 != k2 ==> #[trigger] overlay_position(
                    r@[k1],
                ) != #[trigger] overlay_position(r@[k2]),
    {
        let mut positions: Vec<usize> = vec![0, 1, 3, 4, 6, 7];
        let ghost original_positions = positions@;
        crate::randomness::shuffle_vec(&mut positions);
        proof {
            broadcast use vstd::seq_lib::group_to_multiset_ensures;

            assert forall|k: int| 0 <= k < positions@.len() implies is_eligible_position(
                #[trigger] positions@[k] as int,
            ) by {
                let x = positions@[k];
                assert(positions@.contains(x));
                assert(positions@.to_multiset().count(x) > 0);
                assert(original_positions.to_multiset().count(x) > 0);
                assert(original_positions.contains(x));
                let i = choose|i: int|
                    0 <= i < original_positions.len() && original_positions[i] == x;
                assert(is_eligible_position(x as int));
            }
            assert(original_positions.no_duplicates());
            original_positions.lemma_multiset_has_no_duplicates();
            assert forall|x: usize|
                positions@.to_multiset().contains(x) implies positions@.to_multiset().count(x)
                == 1 by {
                assert(original_positions.to_multiset().contains(x));
            }
            positions@.lemma_multiset_has_no_duplicates_conv();
            assert(positions@.no_duplicates());
        }
        let num_antipoisons = crate::randomness::random_in_range(0, 6) as usize;
        let mut set_for_minute: Vec<Overlay> = Vec::new();
        let mut i: usize = 0;
        while i < num_antipoisons
            invariant
                now.wf(),
                num_antipoisons < 6,
                positions@.len() == 6,
                forall|k: int|
                    0 <= k < positions@.len() ==> is_eligible_position(
                        #[trigger] positions@[k] as int,
                    ),
                set_for_minute@.len() == i,
                i <= num_antipoisons,
                forall|k: int|
                    0 <= k < set_for_minute@.len() ==> #[trigger] matrix_overlay_ok(
                        set_for_minute@[k],
                        now.minute_start_spec(),
                    ),
                positions@.no_duplicates(),
                forall|k: int|
                    0 <= k < set_for_minute@.len() ==> #[trigger] overlay_position(
                        set_for_minute@[k],
                    ) == positions@[k] as int,
            decreases num_antipoisons - i,
        {
            let tube_idx = positions[i % positions.len()];
            let sec = crate::randomness::random_in_range(5, 55);
            let start = now.minute_start_micros() + (sec as u64) * 1_000_000 + (
            now.subsec_micros() as u64);
            let cur_anti_poison = AntiPoisonAnimation::new(
                tube_idx,
                AntiPoisonAnimationStyle::Random,
                start,
                2_000_000,
                vec!['0', '1', '2', '3', '4', '5', '6', '7', '8', '9'],
                30,
            );
            set_for_minute.push(Overlay::AntiPoison(cur_anti_poison));
            i += 1;
        }
        set_for_minute
    }
}

/// A fixed fully-dark duty-cycle split.
pub struct PwmFadeOut {
    pub start_time: u64,
    pub duration: u64,
    pub frame_interval_us: i64,
}

impl PwmFadeOut {
    pub fn get_linger_durations(&self) -> (r: LingerDurations)
        ensures
            r.off == Some(self.frame_interval_us),
            r.on == Some(0i64),
    {
        LingerDurations { off: Some(self.frame_interval_us), on: Some(0) }
    }
}

/// A fixed fully-lit duty-cycle split.
pub struct PwmFadeIn {
    pub start_time: u64,
    pub duration: u64,
    pub frame_interval_us: i64,
}

impl PwmFadeIn {
    pub fn get_linger_durations(&self) -> (r: LingerDurations)
        ensures
            r.off == Some(0i64),
            r.on == Some(self.frame_interval_us),
    {
        LingerDurations { off: Some(0), on: Some(self.frame_interval_us) }
    }
}

} // verus!
