use note_board::label::{has_note_prefix, note_label, prefixed_label};
use note_board::note::{
    close_note_window, focus_note_window, is_open, resize_move_note_window, set_note_position,
    spawn_note_window,
};
use note_board::overlay::{click_through_style, spawn_overlay_window, OVERLAY_LABEL};

fn labels(names: &[&str]) -> Vec<String> {
    names.iter().map(|n| n.to_string()).collect()
}

#[test]
fn label_adds_prefix_to_bare_identifier() {
    assert_eq!(note_label("abc"), "note-abc");
    assert_eq!(note_label(""), "note-");
    assert_eq!(note_label("note"), "note-note");
}

#[test]
fn label_keeps_full_label() {
    assert_eq!(note_label("note-abc"), "note-abc");
    assert_eq!(note_label("note-"), "note-");
    assert!(has_note_prefix("note-1"));
    assert!(!has_note_prefix("Note-1"));
    assert!(!has_note_prefix("not"));
}

#[test]
fn prefixed_label_always_prefixes() {
    assert_eq!(prefixed_label("abc"), "note-abc");
    assert_eq!(prefixed_label("note-abc"), "note-note-abc");
}

#[test]
fn lookup_finds_only_exact_labels() {
    let open = labels(&["note-a", "overlay"]);
    assert!(is_open(&open, &"note-a".to_string()));
    assert!(!is_open(&open, &"note-".to_string()));
    assert!(!is_open(&Vec::new(), &"note-a".to_string()));
}

#[test]
fn create_window_builds_missing_window() {
    assert_eq!(spawn_note_window("abc", &Vec::new()), Some("note-abc".to_string()));
    assert_eq!(
        spawn_note_window("note-abc", &labels(&["note-x"])),
        Some("note-abc".to_string())
    );
}

#[test]
fn create_window_twice_is_a_no_op() {
    let mut open: Vec<String> = Vec::new();
    if let Some(label) = spawn_note_window("abc", &open) {
        open.push(label);
    }
    assert_eq!(spawn_note_window("abc", &open), None);
    assert_eq!(spawn_note_window("note-abc", &open), None);
    assert_eq!(open, labels(&["note-abc"]));
}

#[test]
fn either_form_names_the_same_window() {
    let open = labels(&["note-abc"]);
    assert_eq!(focus_note_window("abc", &open), focus_note_window("note-abc", &open));
    assert_eq!(close_note_window("abc", &open), Some("note-abc".to_string()));
    assert_eq!(close_note_window("note-abc", &open), Some("note-abc".to_string()));
    assert_eq!(set_note_position("abc", &open), set_note_position("note-abc", &open));
    assert_eq!(set_note_position("abc", &open), Ok("note-abc".to_string()));
}

#[test]
fn focus_and_close_of_absent_window_do_nothing() {
    let open = labels(&["note-other"]);
    assert_eq!(focus_note_window("abc", &open), None);
    assert_eq!(close_note_window("abc", &open), None);
    assert_eq!(focus_note_window("abc", &Vec::new()), None);
}

#[test]
fn setters_of_absent_window_fail() {
    let open = labels(&["note-other"]);
    assert_eq!(
        set_note_position("abc", &open),
        Err("Window note-abc not found".to_string())
    );
    assert_eq!(resize_move_note_window("abc", &open), Err("Window not found".to_string()));
}

#[test]
fn resize_takes_bare_identifier_only() {
    let open = labels(&["note-abc"]);
    assert_eq!(resize_move_note_window("abc", &open), Ok("note-abc".to_string()));
    assert_eq!(
        resize_move_note_window("note-abc", &open),
        Err("Window not found".to_string())
    );
}

#[test]
fn create_move_close_scenario() {
    let mut open: Vec<String> = Vec::new();
    let first = spawn_note_window("abc", &open);
    assert_eq!(first, Some("note-abc".to_string()));
    open.push(first.unwrap());
    assert_eq!(spawn_note_window("abc", &open), None);
    assert_eq!(open.len(), 1);
    assert_eq!(set_note_position("abc", &open), Ok("note-abc".to_string()));
    let closed = close_note_window("abc", &open).unwrap();
    assert_eq!(closed, "note-abc");
    open.retain(|l| *l != closed);
    assert!(open.is_empty());
    assert_eq!(focus_note_window("abc", &open), None);
    assert_eq!(close_note_window("abc", &open), None);
}

#[test]
fn overlay_is_built_once() {
    assert!(spawn_overlay_window(&Vec::new()));
    assert!(spawn_overlay_window(&labels(&["note-overlay"])));
    assert!(!spawn_overlay_window(&labels(&["note-a", OVERLAY_LABEL])));
}

#[test]
fn click_through_sets_layered_and_transparent_bits() {
    assert_eq!(click_through_style(0), 0x0008_0020);
    assert_eq!(click_through_style(0x0000_0100), 0x0008_0120);
    assert_eq!(click_through_style(0x0008_0020), 0x0008_0020);
    assert_eq!(click_through_style(-1), -1);
}
