use rsvp_reader::display::{status_line, FormatDuration};

#[test]
fn zero_duration_renders_as_zeros() {
    assert_eq!(FormatDuration(0).to_text(), "00:00.000");
}

#[test]
fn duration_splits_into_minutes_seconds_millis() {
    assert_eq!(FormatDuration(65_432).to_text(), "01:05.432");
    assert_eq!(FormatDuration(59_999).to_text(), "00:59.999");
    assert_eq!(FormatDuration(600_000).to_text(), "10:00.000");
}

#[test]
fn long_durations_widen_the_minutes_field() {
    assert_eq!(FormatDuration(100 * 60_000).to_text(), "100:00.000");
}

#[test]
fn status_line_reports_position_pace_progress_and_remaining() {
    let s = status_line(true, 0, 3, 500);
    assert_eq!(s, "PAUSED | Word 1/3 | WPM: 500 | Percent: 33% | Remaining: 00:00.360");
}

#[test]
fn status_line_shows_playing_and_full_progress_at_the_last_word() {
    let s = status_line(false, 2, 3, 600);
    // the last word: 100 percent, one word of 100 ms left
    assert_eq!(s, "PLAYING | Word 3/3 | WPM: 600 | Percent: 100% | Remaining: 00:00.100");
}

#[test]
fn status_line_rounds_percent_to_the_nearest_integer() {
    // 5 of 8 words shown: 62.5 percent rounds up to 63
    let s = status_line(true, 4, 8, 50);
    assert_eq!(s, "PAUSED | Word 5/8 | WPM: 50 | Percent: 63% | Remaining: 00:04.800");
}
