use rsvp_reader::picker::{display_name, FilePicker};

fn paths(v: &[&str]) -> Vec<String> {
    v.iter().map(|s| s.to_string()).collect()
}

#[test]
fn typing_printable_characters_builds_the_filter_and_resets_the_cursor() {
    let mut p = FilePicker::new();
    p.refresh(paths(&["a.txt", "b.txt", "c.txt"]));
    p.move_down();
    p.move_down();
    assert_eq!(p.selected_index, 2);
    p.type_char('a');
    assert_eq!(p.filter, "a");
    assert_eq!(p.selected_index, 0);
    p.type_char('b');
    assert_eq!(p.filter, "ab");
}

#[test]
fn control_characters_are_ignored_by_the_filter() {
    let mut p = FilePicker::new();
    p.type_char('\u{7}');
    p.type_char('\n');
    p.type_char('\u{7f}');
    assert_eq!(p.filter, "");
}

#[test]
fn backspace_drops_the_last_filter_character() {
    let mut p = FilePicker::new();
    p.type_char('a');
    p.type_char('b');
    p.backspace();
    assert_eq!(p.filter, "a");
    p.backspace();
    assert_eq!(p.filter, "");
    p.backspace();
    assert_eq!(p.filter, "");
}

#[test]
fn cursor_moves_are_clamped_to_the_candidate_list() {
    let mut p = FilePicker::new();
    p.refresh(paths(&["a.txt", "b.txt"]));
    assert_eq!(p.selected_index, 0);
    p.move_up();
    assert_eq!(p.selected_index, 0);
    p.move_down();
    assert_eq!(p.selected_index, 1);
    p.move_down();
    assert_eq!(p.selected_index, 1);
    p.move_up();
    assert_eq!(p.selected_index, 0);
}

#[test]
fn cursor_stays_at_zero_over_an_empty_candidate_list() {
    let mut p = FilePicker::new();
    p.type_char('z');
    p.refresh(paths(&["alpha.txt", "beta.md"]));
    assert!(p.candidates.is_empty());
    assert_eq!(p.selected_index, 0);
    p.move_down();
    assert_eq!(p.selected_index, 0);
    p.move_up();
    assert_eq!(p.selected_index, 0);
    assert_eq!(p.selected(), None);
}

#[test]
fn refresh_with_an_empty_filter_keeps_every_candidate() {
    let mut p = FilePicker::new();
    p.refresh(paths(&["a.txt", "b.txt"]));
    assert_eq!(p.candidates, paths(&["a.txt", "b.txt"]));
    assert_eq!(p.selected(), Some(&"a.txt".to_string()));
}

#[test]
fn refresh_filters_candidates_by_substring_ignoring_case() {
    let mut p = FilePicker::new();
    p.type_char('f');
    p.type_char('o');
    p.type_char('o');
    p.refresh(paths(&["FOO.TXT", "bar.md", "sub/foolish.log"]));
    assert_eq!(p.candidates, paths(&["FOO.TXT", "sub/foolish.log"]));
}

#[test]
fn refresh_clamps_a_cursor_left_beyond_the_new_list() {
    let mut p = FilePicker::new();
    p.refresh(paths(&["a.txt", "b.txt", "c.txt"]));
    p.move_down();
    p.move_down();
    assert_eq!(p.selected_index, 2);
    p.refresh(paths(&["a.txt"]));
    assert_eq!(p.selected_index, 0);
    assert_eq!(p.selected(), Some(&"a.txt".to_string()));
}

#[test]
fn viewport_centres_on_the_cursor_and_clamps_to_the_list() {
    let mut p = FilePicker::new();
    let many: Vec<String> = (0..100).map(|i| format!("f{:03}.txt", i)).collect();
    p.refresh(many);
    // height 26 leaves 20 rows; the cursor at the top shows the first window
    assert_eq!(p.viewport(26), (0, 20));
    for _ in 0..50 {
        p.move_down();
    }
    assert_eq!(p.selected_index, 50);
    assert_eq!(p.viewport(26), (40, 60));
    for _ in 0..49 {
        p.move_down();
    }
    assert_eq!(p.selected_index, 99);
    assert_eq!(p.viewport(26), (89, 100));
}

#[test]
fn viewport_of_a_tiny_terminal_is_empty() {
    let mut p = FilePicker::new();
    p.refresh(paths(&["a.txt", "b.txt"]));
    let (start, end) = p.viewport(5);
    assert_eq!(start, end);
}

#[test]
fn display_name_shows_the_final_path_component() {
    assert_eq!(display_name("dir/sub/name.txt", 80), "name.txt");
    assert_eq!(display_name("plain.txt", 80), "plain.txt");
}

#[test]
fn display_name_truncates_with_a_leading_ellipsis_when_narrow() {
    // width 20 leaves 10 columns; the 20-character name keeps its last 7
    assert_eq!(display_name("verylongfilename.txt", 20), "...ame.txt");
    assert_eq!(display_name("dir/verylongfilename.txt", 20), "...ame.txt");
}

#[test]
fn display_name_on_a_very_narrow_terminal_is_just_the_ellipsis() {
    assert_eq!(display_name("verylongfilename.txt", 5), "...");
}
