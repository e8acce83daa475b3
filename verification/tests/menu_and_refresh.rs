use std::collections::HashSet;

use opencad_xref::context_nav::{
    appended_char, arrow_toggle, has_point_step, header_highlight, latest_first, navigate, next_enabled, toggle_submenu,
    typed_is_mnemonic, NavKey, NavOutcome,
};
use opencad_xref::xref_identities::{direct_identities, BlockRecordRef, DefinitionRef};
use opencad_xref::xref_manager::XrefManagerPanel;
use opencad_xref::xref_model::{RefKind, RefStatus, ReferenceEntry};

#[test]
fn arrows_move_over_enabled_rows_and_wrap() {
    let rows = vec![true, false, true, false];
    assert_eq!(next_enabled(&rows, 0, true), 2);
    assert_eq!(next_enabled(&rows, 2, true), 0);
    assert_eq!(next_enabled(&rows, 0, false), 2);
    assert_eq!(next_enabled(&rows, 1, false), 0);
    assert_eq!(next_enabled(&rows, 3, true), 0);
    let lone = vec![false, true, false];
    assert_eq!(next_enabled(&lone, 1, true), 1);
    let none = vec![false, false];
    assert_eq!(next_enabled(&none, 1, true), 1);
}

#[test]
fn menu_keys_highlight_and_pick_rows() {
    // Enter, Cancel, a disabled row, then an option.
    let rows = vec![true, true, false, true];
    let first = navigate(&rows, None, 0, NavKey::Down);
    assert_eq!(first, NavOutcome::Highlight(0));
    assert_eq!(navigate(&rows, Some(0), 0, NavKey::Down), NavOutcome::Highlight(1));
    assert_eq!(navigate(&rows, Some(1), 0, NavKey::Enter), NavOutcome::Pick(1));
    assert_eq!(navigate(&rows, Some(1), 0, NavKey::Down), NavOutcome::Highlight(3));
    assert_eq!(navigate(&rows, Some(0), 0, NavKey::Up), NavOutcome::Highlight(3));
    assert_eq!(navigate(&rows, None, 0, NavKey::Up), NavOutcome::Highlight(0));
    assert_eq!(navigate(&rows, None, 0, NavKey::Enter), NavOutcome::Pick(0));
    assert_eq!(navigate(&rows, Some(2), 0, NavKey::Enter), NavOutcome::Nothing);
    assert_eq!(navigate(&rows, None, 0, NavKey::Mnemonic { found: Some(3), unique: true }), NavOutcome::Pick(3));
    assert_eq!(navigate(&rows, None, 0, NavKey::Mnemonic { found: Some(3), unique: false }), NavOutcome::Highlight(3));
    assert_eq!(navigate(&rows, None, 0, NavKey::Mnemonic { found: None, unique: false }), NavOutcome::Nothing);
    assert_eq!(navigate(&vec![], None, 0, NavKey::Enter), NavOutcome::Nothing);
}

#[test]
fn submenus_and_typed_characters() {
    assert_eq!(toggle_submenu(None, 2), Some(2));
    assert_eq!(toggle_submenu(Some(2), 2), None);
    assert_eq!(toggle_submenu(Some(1), 2), Some(2));
    assert_eq!(arrow_toggle(None, Some(2), true), Some(2));
    assert_eq!(arrow_toggle(Some(2), Some(2), true), None);
    assert_eq!(arrow_toggle(Some(2), Some(2), false), Some(2));
    assert_eq!(arrow_toggle(None, Some(2), false), None);
    assert_eq!(arrow_toggle(None, None, true), None);
    let headers = vec![None, Some(4), Some(2), Some(2)];
    assert_eq!(header_highlight(&headers, 2, Some(0)), Some(2));
    assert_eq!(header_highlight(&headers, 2, None), None);
    assert_eq!(header_highlight(&headers, 9, Some(1)), None);
    assert!(has_point_step(false, false, false));
    assert!(has_point_step(true, true, false));
    assert!(!has_point_step(true, false, false));
    assert!(!has_point_step(false, false, true));
    assert!(typed_is_mnemonic('c', true));
    assert!(typed_is_mnemonic('7', true));
    assert!(!typed_is_mnemonic('7', false));
    assert!(!typed_is_mnemonic('@', true));
    assert_eq!(appended_char("LINE7", "LINE"), Some('7'));
    assert_eq!(appended_char("LINE", "LINE"), None);
    assert_eq!(appended_char("LXN7", "LINE"), None);
    assert_eq!(appended_char("é", ""), Some('é'));
    assert_eq!(appended_char("ab", ""), None);
}

fn entry(key: u64, name: &str, saved: &str, kind: RefKind) -> ReferenceEntry {
    let mut e = ReferenceEntry::new(key, name, kind);
    e.saved_path = saved.to_string();
    e
}

#[test]
fn direct_identities_of_xrefs_used_images_and_pdf_underlays() {
    let blocks = vec![
        BlockRecordRef { handle: 1, is_xref: true, is_xref_overlay: false, xref_path: "a.dwg".to_string() },
        BlockRecordRef { handle: 2, is_xref: false, is_xref_overlay: false, xref_path: String::new() },
        BlockRecordRef { handle: 3, is_xref: false, is_xref_overlay: true, xref_path: "b.dwg".to_string() },
    ];
    let definitions = vec![
        DefinitionRef::Image { handle: 10, file_name: "used.png".to_string() },
        DefinitionRef::Image { handle: 11, file_name: "unused.png".to_string() },
        DefinitionRef::Underlay { handle: 12, is_pdf: true, file_path: "sheet.pdf".to_string() },
        DefinitionRef::Underlay { handle: 13, is_pdf: false, file_path: "x.dgn".to_string() },
        DefinitionRef::Other,
    ];
    let ids = direct_identities(&blocks, &vec![Some(10), None, Some(99)], &definitions);
    assert_eq!(
        ids,
        vec![
            (1, "a.dwg".to_string()),
            (3, "b.dwg".to_string()),
            (10, "used.png".to_string()),
            (12, "sheet.pdf".to_string()),
        ]
    );
}

#[test]
fn refresh_links_nested_entries_and_keeps_selection_by_identity() {
    let mut panel = XrefManagerPanel::default();
    let mut parent = entry(1, "parent", "parts/parent.dwg", RefKind::DwgXref);
    parent.status = RefStatus::Loaded;
    parent.found_at = Some("/work/parts/parent.dwg".to_string());
    let child = entry(7, "child", "sub/child.dwg", RefKind::DwgXref);
    let stray = entry(8, "stray", "elsewhere.dwg", RefKind::DwgXref);
    panel.refresh_with(
        vec![parent.clone(), child.clone(), stray.clone()],
        &vec![(1, "parts/parent.dwg".to_string())],
        &vec![Some(vec!["SUB\\CHILD.DWG".to_string()]), None, None],
    );
    assert_eq!(panel.nested, HashSet::from([1usize, 2]));
    assert_eq!(panel.children.get(&1), Some(&vec![1usize]));
    assert_eq!(panel.children.len(), 1);

    panel.selected = HashSet::from([1usize]);
    panel.anchor = Some(1);
    panel.expanded = HashSet::from([1u64, 5]);
    panel.refresh_with(
        vec![stray, parent, child],
        &vec![(1, "parts/parent.dwg".to_string())],
        &vec![None, None, None],
    );
    assert_eq!(panel.selected, HashSet::from([2usize]));
    assert_eq!(panel.anchor, Some(2));
    assert_eq!(panel.expanded, HashSet::from([1u64]));
    assert!(panel.children.is_empty());
}

#[test]
fn recent_entries_most_recent_first() {
    let history = vec!["LINE".to_string(), "CIRCLE".to_string(), "MOVE".to_string()];
    assert_eq!(latest_first(&history, 2), vec!["MOVE".to_string(), "CIRCLE".to_string()]);
    assert_eq!(latest_first(&history, 5), vec!["MOVE".to_string(), "CIRCLE".to_string(), "LINE".to_string()]);
    assert!(latest_first(&history, 0).is_empty());
}
