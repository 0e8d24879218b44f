use write_pace::render::format_body;
use write_pace::render::format_break_line;
use write_pace::render::format_break_notification;
use write_pace::render::format_countdown_line;
use write_pace::render::format_delta_line;
use write_pace::render::format_elapsed;
use write_pace::render::format_i128;
use write_pace::render::format_pace_line;
use write_pace::render::format_title;
use write_pace::render::format_total_line;
use write_pace::render::format_u128;
use write_pace::render::format_wpm_centi;
use write_pace::session::BreakKind;
use write_pace::session::Style;

#[test]
fn decimal_rendering() {
    assert_eq!(format_u128(0), "0");
    assert_eq!(format_u128(7), "7");
    assert_eq!(format_u128(10), "10");
    assert_eq!(format_u128(1234567890), "1234567890");
    assert_eq!(format_i128(0), "0");
    assert_eq!(format_i128(42), "42");
    assert_eq!(format_i128(-5), "-5");
    assert_eq!(format_i128(-1234), "-1234");
    assert_eq!(format_i128(i128::MIN), "-170141183460469231731687303715884105728");
}

#[test]
fn elapsed_clock_rendering() {
    assert_eq!(format_elapsed(0), "0:00.00");
    assert_eq!(format_elapsed(6000), "1:00.00");
    assert_eq!(format_elapsed(9050), "1:30.50");
    assert_eq!(format_elapsed(550), "0:05.50");
    assert_eq!(format_elapsed(61 * 6000 + 123), "61:01.23");
}

#[test]
fn wpm_two_decimal_rendering() {
    assert_eq!(format_wpm_centi(0), "0.00");
    assert_eq!(format_wpm_centi(1500), "15.00");
    assert_eq!(format_wpm_centi(750), "7.50");
    assert_eq!(format_wpm_centi(33), "0.33");
    assert_eq!(format_wpm_centi(-6000), "-60.00");
    assert_eq!(format_wpm_centi(-7), "-0.07");
}

#[test]
fn title_and_body_rendering() {
    assert_eq!(format_title(6000), "Minute 1:00.00");
    assert_eq!(format_title(0), "Minute 0:00.00");
    assert_eq!(format_body(15, 1500), "15 words\n15.00 wpm");
    assert_eq!(format_body(-60, -6000), "-60 words\n-60.00 wpm");
}

#[test]
fn console_line_rendering() {
    assert_eq!(
        format_delta_line(15, Style::Affirmative),
        "Success, 15 words written!"
    );
    assert_eq!(
        format_delta_line(0, Style::Warning),
        "Keep your focus! 0 words written!"
    );
    assert_eq!(
        format_pace_line(1500, Style::Affirmative),
        "Keep going! 15.00 words per minute!"
    );
    assert_eq!(
        format_pace_line(750, Style::Warning),
        "Go go go! 7.50 words per minute written!"
    );
    assert_eq!(format_total_line(15), "Wrote 15 words in total");
    assert_eq!(format_total_line(-3), "Wrote -3 words in total");
}

#[test]
fn break_announcement_rendering() {
    assert_eq!(
        format_break_line(BreakKind::Short),
        "Nice work, shake your legs! take a drink!"
    );
    assert_eq!(
        format_break_line(BreakKind::Long),
        "Nice work, it's been an hour, take a break man"
    );
    assert_eq!(
        format_break_notification(BreakKind::Short),
        "Nice work, shake your legs! take a drink!"
    );
    assert_eq!(
        format_break_notification(BreakKind::Long),
        "Nice work, it's been a while, take a break man"
    );
    assert_eq!(format_countdown_line(4), "minutes remaining: 4");
    assert_eq!(format_countdown_line(0), "minutes remaining: 0");
}
