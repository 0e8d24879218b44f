//! The session state machine.
//!
//! A `Session` holds the immutable pace configuration and the running
//! counters of one writing sitting.  Each measurement interval the caller
//! reads the watched file's word count and hands it to [`Session::poll`],
//! which advances the clock, derives the per-poll and cumulative
//! statistics, and decides whether a pomodoro break falls due.

use vstd::prelude::*;
use crate::MINUTE_CS;
use crate::WPM_SCALE;

verus! {

/// How a measurement is styled on the console: affirmative when the pace
/// target was met, warning otherwise.
#[derive(Clone, Copy, Debug, PartialEq, Eq, Structural)]
pub enum Style {
    Affirmative,
    Warning,
}

/// A pomodoro break is short after most focus intervals and long after
/// every fourth one.
#[derive(Clone, Copy, Debug, PartialEq, Eq, Structural)]
pub enum BreakKind {
    Short,
    Long,
}

/// Minutes of focused writing between two breaks.
pub const POMODORO_MINUTES: u64 = 25;

/// Every so many pomodoro intervals the break is a long one.
pub const LONG_BREAK_EVERY: u64 = 4;

/// Minutes of a short break.
pub const SHORT_BREAK_MINUTES: u64 = 5;

/// Minutes of a long break.
pub const LONG_BREAK_MINUTES: u64 = 30;

/// The style chosen for a measurement is a function of one boolean:
/// whether the measurement met its threshold.
pub open spec fn style_for(on_pace: bool) -> Style {
    if on_pace {
        Style::Affirmative
    } else {
        Style::Warning
    }
}

/// The per-poll word growth meets the target when it is at least
/// `target_wpm * delay / 60` words; both sides are scaled by
/// `60 * 100 * 100` centiseconds-times-centiwpm to stay integral.
pub open spec fn delta_on_pace(words_delta: int, target_wpm_centi: int, delay_cs: int) -> bool {
    words_delta * (MINUTE_CS * WPM_SCALE) >= target_wpm_centi * delay_cs
}

/// The session-wide average meets the target when
/// `words_total / elapsed_minutes >= target_wpm`; both sides are scaled
/// to stay integral.
pub open spec fn avg_on_pace(words_total: int, target_wpm_centi: int, elapsed_cs: int) -> bool {
    words_total * (MINUTE_CS * WPM_SCALE) >= target_wpm_centi * elapsed_cs
}

/// The average writing speed in hundredths of a word per minute:
/// `words_total / elapsed_minutes`, rounded to the nearest hundredth
/// with ties away from zero.
pub open spec fn avg_wpm_centi(words_total: int, elapsed_cs: int) -> int
    recommends
        elapsed_cs > 0,
{
    if words_total >= 0 {
        (words_total * (MINUTE_CS * WPM_SCALE) + elapsed_cs / 2) / elapsed_cs
    } else {
        -(((-words_total) * (MINUTE_CS * WPM_SCALE) + elapsed_cs / 2) / elapsed_cs)
    }
}

/// A break falls due when a whole number of pomodoro intervals has
/// elapsed; it is long when that number is a multiple of
/// `LONG_BREAK_EVERY`, short otherwise.
pub open spec fn break_due_spec(elapsed_cs: int) -> Option<BreakKind> {
    let m = elapsed_cs / (MINUTE_CS as int);
    if m != 0 && m % (POMODORO_MINUTES as int) == 0 {
        if m % ((POMODORO_MINUTES * LONG_BREAK_EVERY) as int) == 0 {
            Some(BreakKind::Long)
        } else {
            Some(BreakKind::Short)
        }
    } else {
        None
    }
}

/// The minutes a break of the given kind lasts.
pub open spec fn spec_break_minutes(kind: BreakKind) -> u64 {
    match kind {
        BreakKind::Short => SHORT_BREAK_MINUTES,
        BreakKind::Long => LONG_BREAK_MINUTES,
    }
}

/// Everything one poll reports: the clock reading, the word-growth
/// statistics, the style of each console line, and whether a break
/// falls due.
pub struct PollReport {
    /// Elapsed session time, in centiseconds.
    pub elapsed_cs: u64,
    /// Word growth since the previous poll; negative when the file shrank.
    pub words_delta: i128,
    /// Word growth since the session started; negative when the file shrank.
    pub words_total: i128,
    /// Average writing speed, in hundredths of a word per minute.
    pub average_wpm_centi: i128,
    /// Styling of the per-poll growth line.
    pub delta_style: Style,
    /// Styling of the session-average line.
    pub pace_style: Style,
    /// The break that falls due at this poll, if any.
    pub break_due: Option<BreakKind>,
}

/// One writing sitting: the pace configuration and the running counters.
pub struct Session {
    /// Centiseconds between two polls; at least one.
    pub delay_cs: u32,
    /// The pace target, in hundredths of a word per minute.
    pub target_wpm_centi: u32,
    /// Polls taken so far.
    pub poll_count: u64,
    /// Elapsed session time, in centiseconds.
    pub elapsed_cs: u64,
    /// The file's word count when the session started.
    pub first_count: u64,
    /// The file's word count at the latest poll.
    pub last_count: u64,
}

impl Session {
    /// The elapsed clock always reads exactly `poll_count` polling
    /// intervals, and the interval is positive.
    pub open spec fn wf(self) -> bool {
        &&& self.delay_cs >= 1
        &&& self.elapsed_cs == self.poll_count * self.delay_cs
    }

    /// Starts a sitting: the clock at zero and both word-count snapshots
    /// at the file's initial count.
    pub fn new(delay_cs: u32, target_wpm_centi: u32, initial_count: u64) -> (s: Session)
        requires
            delay_cs >= 1,
        ensures
            s.wf(),
            s.delay_cs == delay_cs,
            s.target_wpm_centi == target_wpm_centi,
            s.poll_count == 0,
            s.elapsed_cs == 0,
            s.first_count == initial_count,
            s.last_count == initial_count,
    {
        Session {
            delay_cs,
            target_wpm_centi,
            poll_count: 0,
            elapsed_cs: 0,
            first_count: initial_count,
            last_count: initial_count,
        }
    }

    /// One measurement interval: advances the clock by one polling delay,
    /// records the freshly read word count, and reports the derived
    /// statistics, line styles and break decision.
    pub fn poll(&mut self, word_count: u64) -> (r: PollReport)
        requires
            old(self).wf(),
            old(self).elapsed_cs + old(self).delay_cs <= u64::MAX,
        ensures
            final(self).wf(),
            final(self).delay_cs == old(self).delay_cs,
            final(self).target_wpm_centi == old(self).target_wpm_centi,
            final(self).first_count == old(self).first_count,
            final(self).poll_count == old(self).poll_count + 1,
            final(self).elapsed_cs == old(self).elapsed_cs + old(self).delay_cs,
            final(self).last_count == word_count,
            r.elapsed_cs == final(self).elapsed_cs,
            r.words_delta == word_count - old(self).last_count,
            r.words_total == word_count - old(self).first_count,
            r.average_wpm_centi == avg_wpm_centi(r.words_total as int, r.elapsed_cs as int),
            r.delta_style == style_for(
                delta_on_pace(
                    r.words_delta as int,
                    old(self).target_wpm_centi as int,
                    old(self).delay_cs as int,
                ),
            ),
            r.pace_style == style_for(
                avg_on_pace(
                    r.words_total as int,
                    old(self).target_wpm_centi as int,
                    r.elapsed_cs as int,
                ),
            ),
            r.break_due == break_due_spec(r.elapsed_cs as int),
    {
        let elapsed_cs = self.elapsed_cs + self.delay_cs as u64;
        proof {
            vstd::arithmetic::mul::lemma_mul_is_distributive_add_other_way(
                self.delay_cs as int,
                self.poll_count as int,
                1,
            );
            assert(self.poll_count <= self.elapsed_cs) by (nonlinear_arith)
                requires
                    self.elapsed_cs == self.poll_count * self.delay_cs,
                    self.delay_cs >= 1,
                    self.poll_count >= 0,
            ;
        }
        self.poll_count = self.poll_count + 1;
        self.elapsed_cs = elapsed_cs;

        let words_delta = diff_u64(word_count, self.last_count);
        let words_total = diff_u64(word_count, self.first_count);
        self.last_count = word_count;

        let average_wpm_centi = average_centi(word_count, self.first_count, elapsed_cs);
        let delta_style = check_delta_pace(
            words_delta,
            self.target_wpm_centi,
            self.delay_cs,
        );
        let pace_style = check_avg_pace(words_total, self.target_wpm_centi, elapsed_cs);
        let break_due = check_break_due(elapsed_cs);

        PollReport {
            elapsed_cs,
            words_delta,
            words_total,
            average_wpm_centi,
            delta_style,
            pace_style,
            break_due,
        }
    }
}

/// The difference of two machine word counts, as a signed number.
fn diff_u64(a: u64, b: u64) -> (r: i128)
    ensures
        r == a - b,
{
    if a >= b {
        (a - b) as i128
    } else {
        -((b - a) as i128)
    }
}

/// The rounded average speed, computed on unsigned magnitudes so that
/// every machine operation stays within range.
fn average_centi(word_count: u64, first_count: u64, elapsed_cs: u64) -> (r: i128)
    requires
        elapsed_cs >= 1,
    ensures
        r == avg_wpm_centi(word_count - first_count, elapsed_cs as int),
{
    let half: u128 = (elapsed_cs as u128) / 2;
    if word_count >= first_count {
        let mag: u128 = (word_count - first_count) as u128;
        proof {
            vstd::arithmetic::mul::lemma_mul_upper_bound(
                mag as int,
                u64::MAX as int,
                (MINUTE_CS * WPM_SCALE) as int,
                (MINUTE_CS * WPM_SCALE) as int,
            );
        }
        let num: u128 = mag * (MINUTE_CS * WPM_SCALE) as u128 + half;
        let q: u128 = num / (elapsed_cs as u128);
        proof {
            vstd::arithmetic::div_mod::lemma_div_nonincreasing(num as int, elapsed_cs as int);
        }
        q as i128
    } else {
        let mag: u128 = (first_count - word_count) as u128;
        proof {
            vstd::arithmetic::mul::lemma_mul_upper_bound(
                mag as int,
                u64::MAX as int,
                (MINUTE_CS * WPM_SCALE) as int,
                (MINUTE_CS * WPM_SCALE) as int,
            );
        }
        let num: u128 = mag * (MINUTE_CS * WPM_SCALE) as u128 + half;
        let q: u128 = num / (elapsed_cs as u128);
        proof {
            vstd::arithmetic::div_mod::lemma_div_nonincreasing(num as int, elapsed_cs as int);
        }
        -(q as i128)
    }
}

/// Picks the console style for a measurement.
pub fn choose_style(on_pace: bool) -> (s: Style)
    ensures
        s == style_for(on_pace),
{
    if on_pace {
        Style::Affirmative
    } else {
        Style::Warning
    }
}

/// Styles the per-poll growth against the expected growth per interval.
fn check_delta_pace(words_delta: i128, target_wpm_centi: u32, delay_cs: u32) -> (s: Style)
    requires
        -(u64::MAX as i128) <= words_delta <= u64::MAX as i128,
    ensures
        s == style_for(
            delta_on_pace(words_delta as int, target_wpm_centi as int, delay_cs as int),
        ),
{
    proof {
        lemma_scaled_in_range(words_delta as int);
        vstd::arithmetic::mul::lemma_mul_upper_bound(
            target_wpm_centi as int,
            u32::MAX as int,
            delay_cs as int,
            u32::MAX as int,
        );
        vstd::arithmetic::mul::lemma_mul_nonnegative(target_wpm_centi as int, delay_cs as int);
    }
    let lhs: i128 = words_delta * (MINUTE_CS * WPM_SCALE) as i128;
    let rhs: i128 = (target_wpm_centi as i128) * (delay_cs as i128);
    choose_style(lhs >= rhs)
}

/// Styles the session average against the pace target.
fn check_avg_pace(words_total: i128, target_wpm_centi: u32, elapsed_cs: u64) -> (s: Style)
    requires
        -(u64::MAX as i128) <= words_total <= u64::MAX as i128,
    ensures
        s == style_for(
            avg_on_pace(words_total as int, target_wpm_centi as int, elapsed_cs as int),
        ),
{
    proof {
        lemma_scaled_in_range(words_total as int);
        vstd::arithmetic::mul::lemma_mul_upper_bound(
            target_wpm_centi as int,
            u32::MAX as int,
            elapsed_cs as int,
            u64::MAX as int,
        );
        vstd::arithmetic::mul::lemma_mul_nonnegative(target_wpm_centi as int, elapsed_cs as int);
    }
    let lhs: i128 = words_total * (MINUTE_CS * WPM_SCALE) as i128;
    let rhs: i128 = (target_wpm_centi as i128) * (elapsed_cs as i128);
    choose_style(lhs >= rhs)
}

/// A word-count magnitude scaled to centiwpm-centiseconds stays well
/// inside the signed 128-bit range.
proof fn lemma_scaled_in_range(v: int)
    requires
        -(u64::MAX as int) <= v <= u64::MAX as int,
    ensures
        i128::MIN <= v * (MINUTE_CS * WPM_SCALE) <= i128::MAX,
{
    if v >= 0 {
        vstd::arithmetic::mul::lemma_mul_upper_bound(
            v,
            u64::MAX as int,
            (MINUTE_CS * WPM_SCALE) as int,
            (MINUTE_CS * WPM_SCALE) as int,
        );
        vstd::arithmetic::mul::lemma_mul_nonnegative(v, (MINUTE_CS * WPM_SCALE) as int);
    } else {
        vstd::arithmetic::mul::lemma_mul_upper_bound(
            -v,
            u64::MAX as int,
            (MINUTE_CS * WPM_SCALE) as int,
            (MINUTE_CS * WPM_SCALE) as int,
        );
        vstd::arithmetic::mul::lemma_mul_nonnegative(-v, (MINUTE_CS * WPM_SCALE) as int);
        assert(v * (MINUTE_CS * WPM_SCALE) == -((-v) * (MINUTE_CS * WPM_SCALE)))
            by (nonlinear_arith);
    }
}

/// Decides whether a break falls due at the given elapsed time.
fn check_break_due(elapsed_cs: u64) -> (r: Option<BreakKind>)
    ensures
        r == break_due_spec(elapsed_cs as int),
{
    let m: u64 = elapsed_cs / MINUTE_CS;
    if m != 0 && m % POMODORO_MINUTES == 0 {
        if m % (POMODORO_MINUTES * LONG_BREAK_EVERY) == 0 {
            Some(BreakKind::Long)
        } else {
            Some(BreakKind::Short)
        }
    } else {
        None
    }
}

/// The minutes a break of the given kind lasts.
pub fn break_minutes(kind: BreakKind) -> (m: u64)
    ensures
        m == spec_break_minutes(kind),
{
    match kind {
        BreakKind::Short => SHORT_BREAK_MINUTES,
        BreakKind::Long => LONG_BREAK_MINUTES,
    }
}

/// The countdown a break prints: one entry per minute of the break,
/// from `minutes - 1` down to zero.
pub fn break_countdown(minutes: u64) -> (r: Vec<u64>)
    requires
        minutes <= usize::MAX,
    ensures
        r@.len() == minutes,
        forall|i: int| 0 <= i < minutes ==> r@[i] == minutes - 1 - i,
{
    let mut r: Vec<u64> = Vec::new();
    let mut n: u64 = 0;
    while n < minutes
        invariant
            n <= minutes,
            r@.len() == n,
            forall|i: int| 0 <= i < n ==> r@[i] == minutes - 1 - i,
        decreases minutes - n,
    {
        r.push(minutes - 1 - n);
        n = n + 1;
    }
    r
}

/// Elapsed time is linear in the number of polls: a well-formed session's
/// clock always reads the poll count times the polling interval.
pub proof fn lemma_elapsed_linear(s: Session)
    requires
        s.wf(),
    ensures
        s.elapsed_cs == s.poll_count * s.delay_cs,
{
}

/// The reported average is exactly `words_total / elapsed_minutes`
/// whenever that quotient needs no rounding: multiplied back by the
/// elapsed time, the average recovers the scaled word total.
pub proof fn lemma_avg_exact(words_total: int, elapsed_cs: int)
    requires
        elapsed_cs >= 1,
        (vstd::math::abs(words_total) * (MINUTE_CS * WPM_SCALE)) % elapsed_cs == 0,
    ensures
        avg_wpm_centi(words_total, elapsed_cs) * elapsed_cs == words_total * (MINUTE_CS
            * WPM_SCALE),
{
    let scale = (MINUTE_CS * WPM_SCALE) as int;
    let m = vstd::math::abs(words_total) as int;
    let a = m * scale;
    let h = elapsed_cs / 2;
    vstd::arithmetic::mul::lemma_mul_nonnegative(m, scale);
    vstd::arithmetic::div_mod::lemma_fundamental_div_mod(a, elapsed_cs);
    assert(a == elapsed_cs * (a / elapsed_cs));
    vstd::arithmetic::div_mod::lemma_div_pos_is_pos(a, elapsed_cs);
    vstd::arithmetic::div_mod::lemma_div_multiples_vanish_fancy(a / elapsed_cs, h, elapsed_cs);
    assert((a + h) / elapsed_cs == a / elapsed_cs);
    if words_total >= 0 {
        assert(avg_wpm_centi(words_total, elapsed_cs) == a / elapsed_cs);
        assert((a / elapsed_cs) * elapsed_cs == a) by {
            vstd::arithmetic::mul::lemma_mul_is_commutative(elapsed_cs, a / elapsed_cs);
        }
    } else {
        assert(avg_wpm_centi(words_total, elapsed_cs) == -(a / elapsed_cs));
        assert((-(a / elapsed_cs)) * elapsed_cs == -a) by {
            vstd::arithmetic::mul::lemma_mul_is_commutative(elapsed_cs, a / elapsed_cs);
            vstd::arithmetic::mul::lemma_mul_unary_negation(a / elapsed_cs, elapsed_cs);
        }
        assert(words_total * scale == -a) by {
            vstd::arithmetic::mul::lemma_mul_unary_negation(m, scale);
        }
    }
}

/// With a sixty-second polling delay each poll advances the clock by one
/// whole minute, so a break falls due exactly at positive multiples of
/// the pomodoro length, and it is a long one exactly at multiples of
/// four pomodoros.
pub proof fn lemma_break_schedule_minute_polls(k: u64)
    requires
        k >= 1,
    ensures
        break_due_spec(k * (MINUTE_CS as int)) == (if (k as int) % (POMODORO_MINUTES as int)
            == 0 {
            if (k as int) % ((POMODORO_MINUTES * LONG_BREAK_EVERY) as int) == 0 {
                Some(BreakKind::Long)
            } else {
                Some(BreakKind::Short)
            }
        } else {
            None
        }),
{
    vstd::arithmetic::div_mod::lemma_div_multiples_vanish(k as int, MINUTE_CS as int);
}

} // verus!
