//! Rendering of the reported statistics as text.
//!
//! Every string the program shows — the console lines, the notification
//! title and body, and the break announcements — is built here by
//! verified code, character for character against a specification of
//! its exact contents.

use vstd::prelude::*;
use vstd::string::StringExecFns;
use crate::MINUTE_CS;
use crate::session::BreakKind;
use crate::session::Style;

verus! {

/// The decimal digit character for a value below ten.
pub open spec fn spec_digit(d: int) -> char {
    if d == 0 {
        '0'
    } else if d == 1 {
        '1'
    } else if d == 2 {
        '2'
    } else if d == 3 {
        '3'
    } else if d == 4 {
        '4'
    } else if d == 5 {
        '5'
    } else if d == 6 {
        '6'
    } else if d == 7 {
        '7'
    } else if d == 8 {
        '8'
    } else {
        '9'
    }
}

/// The usual decimal rendering of a natural number, most significant
/// digit first and without leading zeroes.
pub open spec fn spec_dec(n: nat) -> Seq<char>
    decreases n,
{
    if n < 10 {
        seq![spec_digit(n as int)]
    } else {
        spec_dec(n / 10) + seq![spec_digit((n % 10) as int)]
    }
}

/// The decimal rendering of an integer: a leading minus sign when it is
/// negative.
pub open spec fn spec_int_dec(n: int) -> Seq<char> {
    if n >= 0 {
        spec_dec(n as nat)
    } else {
        seq!['-'] + spec_dec((-n) as nat)
    }
}

/// A value below one hundred rendered as exactly two digits.
pub open spec fn spec_two_dec(n: int) -> Seq<char> {
    seq![spec_digit(n / 10), spec_digit(n % 10)]
}

/// Elapsed centiseconds rendered as `minutes:SS.CC`, the seconds and
/// centiseconds always two digits wide.
pub open spec fn spec_elapsed(cs: nat) -> Seq<char> {
    spec_dec(cs / (MINUTE_CS as nat)) + seq![':'] + spec_two_dec(
        ((cs % (MINUTE_CS as nat)) / 100) as int,
    ) + seq!['.'] + spec_two_dec((cs % 100) as int)
}

/// A speed in hundredths of a word per minute rendered with exactly two
/// decimal places.
pub open spec fn spec_wpm_2dp(c: int) -> Seq<char> {
    if c >= 0 {
        spec_dec((c / 100) as nat) + seq!['.'] + spec_two_dec(c % 100)
    } else {
        seq!['-'] + spec_dec(((-c) / 100) as nat) + seq!['.'] + spec_two_dec((-c) % 100)
    }
}

/// Appends one digit character.
fn push_digit(s: &mut String, d: u64)
    requires
        d < 10,
    ensures
        final(s)@ == old(s)@ + seq![spec_digit(d as int)],
{
    if d == 0 {
        s.append("0");
    } else if d == 1 {
        s.append("1");
    } else if d == 2 {
        s.append("2");
    } else if d == 3 {
        s.append("3");
    } else if d == 4 {
        s.append("4");
    } else if d == 5 {
        s.append("5");
    } else if d == 6 {
        s.append("6");
    } else if d == 7 {
        s.append("7");
    } else if d == 8 {
        s.append("8");
    } else {
        s.append("9");
    }
    proof {
        reveal_strlit("0");
        reveal_strlit("1");
        reveal_strlit("2");
        reveal_strlit("3");
        reveal_strlit("4");
        reveal_strlit("5");
        reveal_strlit("6");
        reveal_strlit("7");
        reveal_strlit("8");
        reveal_strlit("9");
        assert(s@ =~= old(s)@ + seq![spec_digit(d as int)]);
    }
}

/// Appends a value below one hundred as exactly two digits.
fn push_two_digits(s: &mut String, v: u64)
    requires
        v < 100,
    ensures
        final(s)@ == old(s)@ + spec_two_dec(v as int),
{
    push_digit(s, v / 10);
    push_digit(s, v % 10);
    proof {
        assert(s@ =~= old(s)@ + spec_two_dec(v as int));
    }
}

/// Appends the decimal rendering of a natural number.
fn push_dec(s: &mut String, n: u128)
    ensures
        final(s)@ == old(s)@ + spec_dec(n as nat),
    decreases n,
{
    if n < 10 {
        push_digit(s, n as u64);
    } else {
        proof {
            vstd::arithmetic::div_mod::lemma_div_decreases(n as int, 10);
            vstd::arithmetic::div_mod::lemma_div_pos_is_pos(n as int, 10);
        }
        push_dec(s, n / 10);
        push_digit(s, (n % 10) as u64);
        proof {
            assert(s@ =~= old(s)@ + spec_dec(n as nat));
        }
    }
}

/// The decimal rendering of a natural number as a fresh string.
pub fn format_u128(n: u128) -> (r: String)
    ensures
        r@ == spec_dec(n as nat),
{
    let mut s = String::new();
    push_dec(&mut s, n);
    proof {
        assert(s@ =~= spec_dec(n as nat));
    }
    s
}

/// The magnitude of a signed value, as an unsigned number.
fn magnitude_i128(n: i128) -> (r: u128)
    ensures
        r == if n >= 0 {
            n as int
        } else {
            -n as int
        },
{
    if n >= 0 {
        n as u128
    } else {
        ((-(n + 1)) as u128) + 1
    }
}

/// The decimal rendering of an integer as a fresh string.
pub fn format_i128(n: i128) -> (r: String)
    ensures
        r@ == spec_int_dec(n as int),
{
    if n >= 0 {
        format_u128(n as u128)
    } else {
        let mut s = String::from_str("-");
        let mag = magnitude_i128(n);
        push_dec(&mut s, mag);
        proof {
            reveal_strlit("-");
            assert(s@ =~= spec_int_dec(n as int));
        }
        s
    }
}

/// Elapsed centiseconds as `minutes:SS.CC`.
pub fn format_elapsed(elapsed_cs: u64) -> (r: String)
    ensures
        r@ == spec_elapsed(elapsed_cs as nat),
{
    let minutes: u64 = elapsed_cs / MINUTE_CS;
    let seconds: u64 = (elapsed_cs % MINUTE_CS) / 100;
    let centis: u64 = elapsed_cs % 100;
    let mut s = format_u128(minutes as u128);
    s.append(":");
    push_two_digits(&mut s, seconds);
    s.append(".");
    push_two_digits(&mut s, centis);
    proof {
        reveal_strlit(":");
        reveal_strlit(".");
        assert(s@ =~= spec_elapsed(elapsed_cs as nat));
    }
    s
}

/// A speed in hundredths of a word per minute, with two decimal places.
pub fn format_wpm_centi(c: i128) -> (r: String)
    ensures
        r@ == spec_wpm_2dp(c as int),
{
    let mag = magnitude_i128(c);
    let mut s = if c >= 0 {
        String::new()
    } else {
        String::from_str("-")
    };
    push_dec(&mut s, mag / 100);
    s.append(".");
    push_two_digits(&mut s, (mag % 100) as u64);
    proof {
        reveal_strlit("-");
        reveal_strlit(".");
        assert(s@ =~= spec_wpm_2dp(c as int));
    }
    s
}

/// The notification title: the elapsed time under a `Minute` heading.
pub open spec fn spec_title(elapsed_cs: nat) -> Seq<char> {
    "Minute "@ + spec_elapsed(elapsed_cs)
}

/// The notification title for an elapsed time.
pub fn format_title(elapsed_cs: u64) -> (r: String)
    ensures
        r@ == spec_title(elapsed_cs as nat),
{
    let mut s = String::from_str("Minute ");
    let t = format_elapsed(elapsed_cs);
    s.append(t.as_str());
    proof {
        assert(s@ =~= spec_title(elapsed_cs as nat));
    }
    s
}

/// The notification body: the total growth and the average speed.
pub open spec fn spec_body(words_total: int, average_wpm_centi: int) -> Seq<char> {
    spec_int_dec(words_total) + " words\n"@ + spec_wpm_2dp(average_wpm_centi) + " wpm"@
}

/// The notification body for a total growth and an average speed.
pub fn format_body(words_total: i128, average_wpm_centi: i128) -> (r: String)
    ensures
        r@ == spec_body(words_total as int, average_wpm_centi as int),
{
    let mut s = format_i128(words_total);
    s.append(" words\n");
    let w = format_wpm_centi(average_wpm_centi);
    s.append(w.as_str());
    s.append(" wpm");
    proof {
        assert(s@ =~= spec_body(words_total as int, average_wpm_centi as int));
    }
    s
}

/// The console line about the growth since the previous poll.
pub open spec fn spec_delta_line(words_delta: int, style: Style) -> Seq<char> {
    match style {
        Style::Affirmative => "Success, "@ + spec_int_dec(words_delta) + " words written!"@,
        Style::Warning => "Keep your focus! "@ + spec_int_dec(words_delta) + " words written!"@,
    }
}

/// The console line about the growth since the previous poll.
pub fn format_delta_line(words_delta: i128, style: Style) -> (r: String)
    ensures
        r@ == spec_delta_line(words_delta as int, style),
{
    let mut s = match style {
        Style::Affirmative => String::from_str("Success, "),
        Style::Warning => String::from_str("Keep your focus! "),
    };
    let d = format_i128(words_delta);
    s.append(d.as_str());
    s.append(" words written!");
    proof {
        assert(s@ =~= spec_delta_line(words_delta as int, style));
    }
    s
}

/// The console line about the session-wide average speed.
pub open spec fn spec_pace_line(average_wpm_centi: int, style: Style) -> Seq<char> {
    match style {
        Style::Affirmative => "Keep going! "@ + spec_wpm_2dp(average_wpm_centi)
            + " words per minute!"@,
        Style::Warning => "Go go go! "@ + spec_wpm_2dp(average_wpm_centi)
            + " words per minute written!"@,
    }
}

/// The console line about the session-wide average speed.
pub fn format_pace_line(average_wpm_centi: i128, style: Style) -> (r: String)
    ensures
        r@ == spec_pace_line(average_wpm_centi as int, style),
{
    let mut s = match style {
        Style::Affirmative => String::from_str("Keep going! "),
        Style::Warning => String::from_str("Go go go! "),
    };
    let w = format_wpm_centi(average_wpm_centi);
    s.append(w.as_str());
    match style {
        Style::Affirmative => s.append(" words per minute!"),
        Style::Warning => s.append(" words per minute written!"),
    }
    proof {
        assert(s@ =~= spec_pace_line(average_wpm_centi as int, style));
    }
    s
}

/// The console line about the total growth of the session.
pub open spec fn spec_total_line(words_total: int) -> Seq<char> {
    "Wrote "@ + spec_int_dec(words_total) + " words in total"@
}

/// The console line about the total growth of the session.
pub fn format_total_line(words_total: i128) -> (r: String)
    ensures
        r@ == spec_total_line(words_total as int),
{
    let mut s = String::from_str("Wrote ");
    let d = format_i128(words_total);
    s.append(d.as_str());
    s.append(" words in total");
    proof {
        assert(s@ =~= spec_total_line(words_total as int));
    }
    s
}

/// The console announcement of a break.
pub open spec fn spec_break_line(kind: BreakKind) -> Seq<char> {
    match kind {
        BreakKind::Short => "Nice work, shake your legs! take a drink!"@,
        BreakKind::Long => "Nice work, it's been an hour, take a break man"@,
    }
}

/// The console announcement of a break.
pub fn format_break_line(kind: BreakKind) -> (r: String)
    ensures
        r@ == spec_break_line(kind),
{
    match kind {
        BreakKind::Short => String::from_str("Nice work, shake your legs! take a drink!"),
        BreakKind::Long => String::from_str("Nice work, it's been an hour, take a break man"),
    }
}

/// The one-shot notification text of a break.
pub open spec fn spec_break_notification(kind: BreakKind) -> Seq<char> {
    match kind {
        BreakKind::Short => "Nice work, shake your legs! take a drink!"@,
        BreakKind::Long => "Nice work, it's been a while, take a break man"@,
    }
}

/// The one-shot notification text of a break.
pub fn format_break_notification(kind: BreakKind) -> (r: String)
    ensures
        r@ == spec_break_notification(kind),
{
    match kind {
        BreakKind::Short => String::from_str("Nice work, shake your legs! take a drink!"),
        BreakKind::Long => String::from_str("Nice work, it's been a while, take a break man"),
    }
}

/// The console line of one break-countdown tick.
pub open spec fn spec_countdown_line(remaining: nat) -> Seq<char> {
    "minutes remaining: "@ + spec_dec(remaining)
}

/// The console line of one break-countdown tick.
pub fn format_countdown_line(remaining: u64) -> (r: String)
    ensures
        r@ == spec_countdown_line(remaining as nat),
{
    let mut s = String::from_str("minutes remaining: ");
    push_dec(&mut s, remaining as u128);
    proof {
        assert(s@ =~= spec_countdown_line(remaining as nat));
    }
    s
}

} // verus!
