use write_pace::session::break_countdown;
use write_pace::session::break_minutes;
use write_pace::session::choose_style;
use write_pace::session::BreakKind;
use write_pace::session::Session;
use write_pace::session::Style;

/// The scenario of a sitting that starts at 100 words with a 10 wpm
/// target and a 60 s delay: a 115-word poll is on pace in both lines,
/// an unchanged second poll falls behind in both.
#[test]
fn scenario_two_polls() {
    let mut s = Session::new(6000, 1000, 100);
    assert_eq!(s.first_count, 100);
    assert_eq!(s.last_count, 100);
    assert_eq!(s.elapsed_cs, 0);

    let r1 = s.poll(115);
    assert_eq!(r1.words_delta, 15);
    assert_eq!(r1.words_total, 15);
    assert_eq!(r1.elapsed_cs, 6000);
    assert_eq!(r1.average_wpm_centi, 1500);
    assert_eq!(r1.delta_style, Style::Affirmative);
    assert_eq!(r1.pace_style, Style::Affirmative);
    assert_eq!(r1.break_due, None);

    let r2 = s.poll(115);
    assert_eq!(r2.words_delta, 0);
    assert_eq!(r2.words_total, 15);
    assert_eq!(r2.elapsed_cs, 12000);
    assert_eq!(r2.average_wpm_centi, 750);
    assert_eq!(r2.delta_style, Style::Warning);
    assert_eq!(r2.pace_style, Style::Warning);
    assert_eq!(r2.break_due, None);
}

/// Elapsed time is the poll count times the polling delay.
#[test]
fn elapsed_is_linear_in_polls() {
    let mut s = Session::new(150, 1600, 0);
    for k in 1u64..=40 {
        s.poll(0);
        assert_eq!(s.elapsed_cs, k * 150);
        assert_eq!(s.poll_count, k);
    }
}

/// The total is always the current count minus the starting count, and
/// the starting count never moves.
#[test]
fn total_tracks_first_count() {
    let mut s = Session::new(6000, 1600, 42);
    let r = s.poll(50);
    assert_eq!(r.words_total, 8);
    let r = s.poll(41);
    assert_eq!(r.words_total, -1);
    let r = s.poll(142);
    assert_eq!(r.words_total, 100);
    assert_eq!(s.first_count, 42);
}

/// A shrinking file yields a negative growth, displayed as-is and
/// styled as a warning.
#[test]
fn shrinking_file_reports_negative_delta() {
    let mut s = Session::new(6000, 1000, 100);
    let r = s.poll(40);
    assert_eq!(r.words_delta, -60);
    assert_eq!(r.words_total, -60);
    assert_eq!(r.average_wpm_centi, -6000);
    assert_eq!(r.delta_style, Style::Warning);
    assert_eq!(r.pace_style, Style::Warning);
}

/// The average rounds to the nearest hundredth of a word per minute.
#[test]
fn average_rounds_to_centiwpm() {
    // One word in three minutes: 0.3333... wpm reads as 0.33.
    let mut s = Session::new(6000, 1000, 0);
    s.poll(0);
    s.poll(0);
    let r = s.poll(1);
    assert_eq!(r.average_wpm_centi, 33);

    // Two words in three minutes: 0.6666... wpm reads as 0.67.
    let mut s = Session::new(6000, 1000, 0);
    s.poll(0);
    s.poll(0);
    let r = s.poll(2);
    assert_eq!(r.average_wpm_centi, 67);
}

/// The per-poll threshold is the target rate times the delay: at 10 wpm
/// and a 30 s delay, five words per poll are exactly on pace.
#[test]
fn delta_threshold_scales_with_delay() {
    let mut s = Session::new(3000, 1000, 0);
    let r = s.poll(5);
    assert_eq!(r.delta_style, Style::Affirmative);
    let mut s = Session::new(3000, 1000, 0);
    let r = s.poll(4);
    assert_eq!(r.delta_style, Style::Warning);
}

/// With one-minute polls a break falls due exactly at positive
/// multiples of 25 elapsed minutes, long exactly at multiples of 100.
#[test]
fn break_schedule_at_minute_polls() {
    let mut s = Session::new(6000, 1600, 0);
    for k in 1u64..=125 {
        let r = s.poll(0);
        let expected = if k % 25 == 0 {
            if k % 100 == 0 {
                Some(BreakKind::Long)
            } else {
                Some(BreakKind::Short)
            }
        } else {
            None
        };
        assert_eq!(r.break_due, expected, "at elapsed minute {}", k);
    }
}

/// A short break lasts five minutes, a long one thirty.
#[test]
fn break_lengths() {
    assert_eq!(break_minutes(BreakKind::Short), 5);
    assert_eq!(break_minutes(BreakKind::Long), 30);
}

/// The break countdown counts whole minutes down to an inclusive zero.
#[test]
fn countdown_counts_to_zero() {
    assert_eq!(break_countdown(5), vec![4, 3, 2, 1, 0]);
    assert_eq!(break_countdown(1), vec![0]);
    assert_eq!(break_countdown(0), Vec::<u64>::new());
}

/// Styling is a function of the single on-pace boolean.
#[test]
fn style_follows_threshold() {
    assert_eq!(choose_style(true), Style::Affirmative);
    assert_eq!(choose_style(false), Style::Warning);
}
