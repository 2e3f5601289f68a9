use rsvp_reader::engine::{EngineConfig, PivotStrategy, SpeedReader, MAX_WPM, MIN_WPM};

fn words(v: &[&str]) -> Vec<String> {
    v.iter().map(|s| s.to_string()).collect()
}

#[test]
fn new_engine_starts_paused_at_zero() {
    let r = SpeedReader::new(words(&["a", "b"]), 500);
    assert_eq!(r.current_word_index, 0);
    assert!(r.is_paused);
    assert!(!r.reduced_clutter);
    assert_eq!(r.wpm, 500);
}

#[test]
fn new_engine_clamps_wpm_into_band() {
    let low = SpeedReader::new(words(&["a"]), 10);
    assert_eq!(low.wpm, MIN_WPM);
    let high = SpeedReader::new(words(&["a"]), 1_000_000);
    assert_eq!(high.wpm, MAX_WPM);
}

#[test]
fn advance_then_rewind_returns_to_interior_index() {
    let mut r = SpeedReader::new(words(&["a", "b", "c", "d"]), 500);
    r.current_word_index = 2;
    assert!(r.next_word());
    assert_eq!(r.current_word_index, 3);
    assert!(r.previous_word());
    assert_eq!(r.current_word_index, 2);
}

#[test]
fn rewind_at_zero_is_a_no_op_returning_false() {
    let mut r = SpeedReader::new(words(&["a", "b"]), 500);
    assert!(!r.previous_word());
    assert_eq!(r.current_word_index, 0);
}

#[test]
fn advance_at_sentinel_is_a_no_op_returning_false() {
    let mut r = SpeedReader::new(words(&["a", "b"]), 500);
    assert!(r.next_word());
    assert!(r.next_word());
    assert_eq!(r.current_word_index, 2);
    assert!(r.is_finished());
    assert!(!r.next_word());
    assert_eq!(r.current_word_index, 2);
}

#[test]
fn restart_yields_index_zero_and_paused_from_any_state() {
    let mut r = SpeedReader::new(words(&["a", "b", "c"]), 500);
    r.start_reading();
    r.next_word();
    r.next_word();
    assert!(!r.is_paused);
    r.restart();
    assert_eq!(r.current_word_index, 0);
    assert!(r.is_paused);
}

#[test]
fn retime_applies_deltas_inside_the_band() {
    let mut r = SpeedReader::new(words(&["a"]), 500);
    r.adjust_wpm(50);
    assert_eq!(r.wpm, 550);
    r.adjust_wpm(-50);
    assert_eq!(r.wpm, 500);
}

#[test]
fn retime_rejects_deltas_that_leave_the_band() {
    let mut r = SpeedReader::new(words(&["a"]), MAX_WPM);
    r.adjust_wpm(50);
    assert_eq!(r.wpm, MAX_WPM);
    let mut s = SpeedReader::new(words(&["a"]), MIN_WPM);
    s.adjust_wpm(-50);
    assert_eq!(s.wpm, MIN_WPM);
    // a rejected change is idempotent: asking again changes nothing either
    s.adjust_wpm(-50);
    assert_eq!(s.wpm, MIN_WPM);
}

#[test]
fn display_interval_is_sixty_seconds_over_wpm() {
    let r = SpeedReader::new(words(&["a"]), 600);
    assert_eq!(r.get_display_interval(), 100_000);
    let s = SpeedReader::new(words(&["a"]), 60);
    assert_eq!(s.get_display_interval(), 1_000_000);
    let slow = SpeedReader::new(words(&["a"]), MIN_WPM);
    assert_eq!(slow.get_display_interval(), 1_200_000);
    let fast = SpeedReader::new(words(&["a"]), MAX_WPM);
    assert_eq!(fast.get_display_interval(), 12_000);
}

#[test]
fn display_interval_falls_as_wpm_rises() {
    let mut prev = u64::MAX;
    for wpm in [50u32, 51, 100, 500, 999, 2500, 4999, 5000] {
        let r = SpeedReader::new(words(&["a"]), wpm);
        let iv = r.get_display_interval();
        assert!(iv < prev, "interval must fall as wpm rises");
        prev = iv;
    }
}

#[test]
fn current_word_follows_the_index_and_ends_at_none() {
    let mut r = SpeedReader::new(words(&["alpha", "beta"]), 500);
    assert_eq!(r.current_word(), Some("alpha"));
    r.next_word();
    assert_eq!(r.current_word(), Some("beta"));
    r.next_word();
    assert_eq!(r.current_word(), None);
}

#[test]
fn load_words_replaces_the_list_and_restarts() {
    let mut r = SpeedReader::new(words(&["a", "b"]), 500);
    r.start_reading();
    r.next_word();
    r.load_words(words(&["x", "y", "z"]));
    assert_eq!(r.current_word_index, 0);
    assert!(r.is_paused);
    assert_eq!(r.current_word(), Some("x"));
    assert_eq!(r.words.len(), 3);
}

#[test]
fn toggle_clutter_flips_the_flag() {
    let mut r = SpeedReader::new(words(&["a"]), 500);
    assert!(!r.reduced_clutter);
    r.toggle_clutter();
    assert!(r.reduced_clutter);
    r.toggle_clutter();
    assert!(!r.reduced_clutter);
}

#[test]
fn set_config_switches_the_variant() {
    let mut r = SpeedReader::new(words(&["a"]), 500);
    assert_eq!(r.config.pivot, PivotStrategy::Simple);
    assert!(r.config.enable_file_picker);
    r.set_config(EngineConfig {
        pivot: PivotStrategy::Weighted,
        enable_file_picker: false,
        enable_clutter_toggle: false,
    });
    assert_eq!(r.config.pivot, PivotStrategy::Weighted);
    assert!(!r.config.enable_file_picker);
}
