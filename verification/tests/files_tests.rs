use rsvp_reader::engine::SpeedReader;
use rsvp_reader::files::{collect_text_files, contains_sub, is_text_path, sort_paths, str_eq, str_lex_le};

fn paths(v: &[&str]) -> Vec<String> {
    v.iter().map(|s| s.to_string()).collect()
}

#[test]
fn text_extensions_are_recognised() {
    assert!(is_text_path("notes.txt"));
    assert!(is_text_path("README.md"));
    assert!(is_text_path("doc.rst"));
    assert!(is_text_path("build.log"));
    assert!(is_text_path("story.text"));
}

#[test]
fn extension_matching_ignores_case() {
    assert!(is_text_path("NOTES.TXT"));
    assert!(is_text_path("a/b/Readme.Md"));
}

#[test]
fn non_text_paths_are_rejected() {
    assert!(!is_text_path("main.rs"));
    assert!(!is_text_path("archive.tar.gz"));
    assert!(!is_text_path("noext"));
    assert!(!is_text_path(".gitignore"));
    assert!(!is_text_path("dir.txt/file"));
    assert!(!is_text_path("trailing."));
}

#[test]
fn nested_text_files_match_by_their_final_component() {
    assert!(is_text_path("./deep/nested/dir/words.txt"));
    assert!(is_text_path("a.b/c.d/e.md"));
}

#[test]
fn collecting_keeps_only_text_files_sorted() {
    let r = collect_text_files(paths(&["b.txt", "a.md", "x.rs", "c.log", "a.txt"]));
    assert_eq!(r, paths(&["a.md", "a.txt", "b.txt", "c.log"]));
}

#[test]
fn sorting_orders_lexicographically_and_keeps_duplicates() {
    let r = sort_paths(paths(&["pear", "apple", "pear", "fig"]));
    assert_eq!(r, paths(&["apple", "fig", "pear", "pear"]));
}

#[test]
fn lexicographic_comparison_orders_prefixes_first() {
    assert!(str_lex_le("ab", "abc"));
    assert!(!str_lex_le("abc", "ab"));
    assert!(str_lex_le("abc", "abd"));
    assert!(str_lex_le("", "a"));
    assert!(str_lex_le("same", "same"));
}

#[test]
fn substring_search_finds_inner_text() {
    assert!(contains_sub("hello world", "lo wo"));
    assert!(contains_sub("hello", ""));
    assert!(!contains_sub("hello", "world"));
    assert!(!contains_sub("ab", "abc"));
}

#[test]
fn string_equality_compares_characters() {
    assert!(str_eq("abc", "abc"));
    assert!(!str_eq("abc", "abd"));
    assert!(!str_eq("abc", "ab"));
}

#[test]
fn filtering_matches_case_insensitively() {
    let r = SpeedReader::new(Vec::new(), 500);
    let files = paths(&["FOO.TXT", "bar.md", "sub/foolish.log"]);
    let hit = r.filter_text_files(&files, "foo");
    assert_eq!(hit, paths(&["FOO.TXT", "sub/foolish.log"]));
}

#[test]
fn filtering_with_no_match_yields_an_empty_list() {
    let r = SpeedReader::new(Vec::new(), 500);
    let files = paths(&["alpha.txt", "beta.md"]);
    let hit = r.filter_text_files(&files, "zzz");
    assert!(hit.is_empty());
}

#[test]
fn an_empty_filter_keeps_every_candidate() {
    let r = SpeedReader::new(Vec::new(), 500);
    let files = paths(&["alpha.txt", "beta.md"]);
    let hit = r.filter_text_files(&files, "");
    assert_eq!(hit, files);
}
