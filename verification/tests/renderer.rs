//! Frame layout computed for concrete snapshots and terminal sizes.

use scape_vh::filer::{Dir, Entry};
use scape_vh::renderer::{render_frame, truncate_name};

fn chars(text: &str) -> Vec<char> {
    text.chars().collect()
}

fn entry(name: &str, path: &str, is_file: bool) -> Entry {
    Entry { name: chars(name), path: chars(path), is_file }
}

#[test]
fn a_name_too_long_for_its_pane_is_cut_to_the_half_width() {
    // width 10: half is 5; a 6-character name no longer fits
    assert_eq!(truncate_name(&chars("abcdef"), 10), chars("abcde"));
    assert_eq!(truncate_name(&chars("abcdefghijkl"), 10), chars("abcde"));
}

#[test]
fn a_name_that_fits_is_kept_whole() {
    assert_eq!(truncate_name(&chars("abcde"), 10), chars("abcde"));
    assert_eq!(truncate_name(&chars("ab"), 10), chars("ab"));
    assert_eq!(truncate_name(&chars(""), 10), chars(""));
}

#[test]
fn the_title_is_the_current_path() {
    let cur = Dir::new(chars("/home/user"), Some(chars("/home")), vec![]);
    let frame = render_frame(&cur, &None, 20, 5);
    assert_eq!(frame.title, chars("/home/user"));
}

#[test]
fn the_right_pane_highlights_the_cursor_row() {
    let mut cur = Dir::new(
        chars("/home/user"),
        Some(chars("/home")),
        vec![entry("a", "/home/user/a", false), entry("b", "/home/user/b", true)],
    );
    cur.selected_entry_index = 1;
    let frame = render_frame(&cur, &None, 20, 5);

    assert_eq!(frame.right.len(), 2);
    assert_eq!(frame.right[0].text, chars("a"));
    assert!(!frame.right[0].highlighted);
    assert_eq!(frame.right[0].pad, 0);
    assert_eq!(frame.right[1].text, chars("b"));
    assert!(frame.right[1].highlighted);
    // the highlight bar pads a 1-character name out to the half width
    assert_eq!(frame.right[1].pad, 9);
}

#[test]
fn the_left_pane_highlights_the_directory_we_came_from() {
    let cur = Dir::new(
        chars("/home/user"),
        Some(chars("/home")),
        vec![entry("a", "/home/user/a", false)],
    );
    let parent = Dir::new(
        chars("/home"),
        Some(chars("/")),
        vec![entry("other", "/home/other", false), entry("user", "/home/user", false)],
    );
    let frame = render_frame(&cur, &Some(parent), 20, 6);

    assert_eq!(frame.left.len(), 2);
    assert_eq!(frame.left[0].text, chars("other"));
    assert!(!frame.left[0].highlighted);
    assert_eq!(frame.left[1].text, chars("user"));
    assert!(frame.left[1].highlighted);
    assert_eq!(frame.left[1].pad, 6);
}

#[test]
fn panes_clip_to_the_screen_height() {
    let cur = Dir::new(
        chars("/home/user"),
        Some(chars("/home")),
        vec![
            entry("a", "/home/user/a", false),
            entry("b", "/home/user/b", false),
            entry("c", "/home/user/c", false),
        ],
    );
    // height 4 leaves two pane rows below the title and its spacer
    let frame = render_frame(&cur, &None, 20, 4);
    assert_eq!(frame.right.len(), 2);

    // a screen with no room below the title shows no rows at all
    let frame = render_frame(&cur, &None, 20, 2);
    assert_eq!(frame.right.len(), 0);
}

#[test]
fn missing_parent_or_entries_render_empty_panes() {
    let cur = Dir::new(chars("/"), None, vec![]);
    let frame = render_frame(&cur, &None, 20, 5);
    assert_eq!(frame.left.len(), 0);
    assert_eq!(frame.right.len(), 0);
    assert_eq!(frame.title, chars("/"));
}

#[test]
fn a_truncated_highlighted_name_gets_no_padding() {
    let cur = Dir::new(
        chars("/home/user"),
        Some(chars("/home")),
        vec![entry("averylongname", "/home/user/averylongname", false)],
    );
    let frame = render_frame(&cur, &None, 10, 5);
    assert_eq!(frame.right.len(), 1);
    assert!(frame.right[0].highlighted);
    assert_eq!(frame.right[0].text, chars("avery"));
    assert_eq!(frame.right[0].pad, 0);
}
