use opencad_xref::formatting::{format_date, format_size};
use opencad_xref::xref_manager::{claim_path, status_text, type_text, XrefManagerPanel};
use opencad_xref::xref_model::{RefKind, RefStatus, RefType, ReferenceEntry};

#[test]
fn size_formats_without_deps() {
    assert_eq!(format_size(None), "—");
    assert_eq!(format_size(Some(0)), "0 B");
    assert_eq!(format_size(Some(900)), "900 B");
    assert_eq!(format_size(Some(2048)), "2.0 KB");
    assert_eq!(format_size(Some(5 * 1_048_576)), "5.0 MB");
}

#[test]
fn date_formats_known_days() {
    assert_eq!(format_date(None), "—");
    let day = |days: i64| format_date(Some(days * 86_400));
    assert_eq!(day(0), "1970-01-01");
    assert_eq!(day(10957), "2000-01-01");
    assert_eq!(day(19723), "2024-01-01");
}

fn entry(key: u64, name: &str, saved: &str) -> ReferenceEntry {
    let mut e = ReferenceEntry::new(key, name, RefKind::DwgXref);
    e.saved_path = saved.to_string();
    e
}

#[test]
fn select_toggles_anchor_and_set() {
    let mut panel = XrefManagerPanel::default();
    panel.entries = vec![entry(1, "A", "a.dwg"), entry(2, "B", "b.dwg")];
    panel.toggle_select(0);
    panel.toggle_select(1);
    assert!(panel.selected.contains(&0) && panel.selected.contains(&1));
    assert_eq!(panel.anchor, Some(1));
    panel.toggle_select(1);
    assert!(!panel.selected.contains(&1));
    assert_eq!(panel.anchor, Some(0));
    panel.toggle_select(9); // out of range: no-op
    assert_eq!(panel.selected.len(), 1);
}

#[test]
fn tree_skips_repeat_paths() {
    let mut panel = XrefManagerPanel::default();
    panel.entries = vec![
        entry(1, "A", "a.dwg"),
        entry(2, "B", "b.dwg"),
        entry(3, "B2", "b.dwg"),
    ];
    panel.tree = true;
    // Repeats collapse even among roots: B2 shares B's path.
    assert_eq!(panel.display_rows().len(), 2);
    // Mark B2 nested under A: the repeat path now collapses away —
    // A claims a.dwg, B2-as-child claims b.dwg, the B root is a repeat.
    panel.nested.insert(2);
    panel.children.insert(1, vec![2]);
    panel.expanded.insert(1);
    let rows = panel.display_rows();
    assert_eq!(rows.len(), 2); // A, B-as-child-of-A
    assert!(rows.iter().any(|r| r.index == 2 && r.is_nested));
    // A second parent claiming the same path shows nothing twice.
    panel.entries.push(entry(4, "C", "c.dwg"));
    panel.children.insert(4, vec![2]);
    panel.expanded.insert(4);
    let count = panel
        .display_rows()
        .iter()
        .filter(|r| r.index == 2)
        .count();
    assert_eq!(count, 1);
}

#[test]
fn expand_collapses_by_default() {
    let mut panel = XrefManagerPanel::default();
    panel.entries = vec![entry(1, "A", "a.dwg"), entry(2, "B", "b.dwg")];
    panel.nested.insert(1);
    panel.children.insert(1, vec![1]);
    panel.tree = true;
    assert!(!panel.display_rows().iter().any(|r| r.is_nested));
    panel.toggle_expand(1);
    assert!(panel.display_rows().iter().any(|r| r.is_nested));
    panel.toggle_expand(1);
    assert!(!panel.display_rows().iter().any(|r| r.is_nested));
}

// ── Further cases ─────────────────────────────────────────────────────────

#[test]
fn size_matches_float_formatting() {
    let mut samples: Vec<u64> = vec![
        1023, 1024, 1025, 1075, 1126, 1280, 1536, 1_048_575, 1_048_576, 1_101_004, 1_363_149,
        1_073_741_823, 1_073_741_824, 1_181_116_006, 1_342_177_280, u64::MAX, u64::MAX - 1,
        (1u64 << 53) + 1, (1u64 << 60) + 12345, 9_007_199_254_740_993,
    ];
    for i in 0..2000u64 {
        samples.push(1024 + i * 37);
        samples.push(1_048_576 + i * 9973);
        samples.push(1_073_741_824 + i * 104_729_111);
    }
    for b in samples {
        let expected = if b < 1024 {
            format!("{b} B")
        } else if b < 1024 * 1024 {
            format!("{:.1} KB", b as f64 / 1024.0)
        } else if b < 1024 * 1024 * 1024 {
            format!("{:.1} MB", b as f64 / 1_048_576.0)
        } else {
            format!("{:.1} GB", b as f64 / 1_073_741_824.0)
        };
        assert_eq!(format_size(Some(b)), expected, "{b}");
    }
}

#[test]
fn date_handles_leap_days_and_negative_times() {
    assert_eq!(format_date(Some(951_782_400)), "2000-02-29");
    assert_eq!(format_date(Some(-1)), "1969-12-31");
    assert_eq!(format_date(Some(-86_400 * 365)), "1969-01-01");
    assert_eq!(format_date(Some(-62_135_596_800 - 86_400)), "0000-12-31");
    assert_eq!(format_date(Some(-62_135_596_800 - 86_400 * 367)), "-001-12-31");
    assert_eq!(format_date(None), "—");
}

#[test]
fn claim_path_passes_empty_and_first_occurrence() {
    let mut seen: Vec<String> = Vec::new();
    assert!(claim_path(&mut seen, ""));
    assert!(claim_path(&mut seen, "A\\B.dwg"));
    assert!(!claim_path(&mut seen, "a/./b.dwg"));
    assert!(claim_path(&mut seen, ""));
    assert_eq!(seen, vec!["a/b.dwg".to_string()]);
}

#[test]
fn text_columns() {
    assert_eq!(status_text(RefStatus::NotFound), "Not found");
    let mut e = entry(1, "A", "a.dwg");
    assert_eq!(type_text(&e), "Attach");
    e.ref_type = RefType::Overlay;
    assert_eq!(type_text(&e), "Overlay");
    e.kind = RefKind::Pdf;
    assert_eq!(type_text(&e), "PDF");
}

#[test]
fn list_mode_shows_everything_in_order() {
    let mut panel = XrefManagerPanel::default();
    panel.entries = vec![entry(1, "A", "a.dwg"), entry(2, "B", "a.dwg")];
    panel.nested.insert(1);
    let rows = panel.display_rows();
    assert_eq!(rows.len(), 2);
    assert!(!rows[0].is_nested && rows[1].is_nested && rows[1].index == 1);
    panel.toggle_tree();
    assert_eq!(panel.display_rows().len(), 1);
}

#[test]
fn expand_ignores_unknown_keys_and_deselecting_another_row_keeps_anchor() {
    let mut panel = XrefManagerPanel::default();
    panel.entries = vec![entry(1, "A", "a.dwg"), entry(2, "B", "b.dwg")];
    panel.toggle_expand(42);
    assert!(panel.expanded.is_empty());
    panel.toggle_select(0);
    panel.toggle_select(1);
    panel.toggle_select(0);
    assert_eq!(panel.anchor, Some(1));
    panel.toggle_select(1);
    assert_eq!(panel.anchor, None);
}

#[test]
fn date_follows_century_leap_rules() {
    // 2100 is not a leap year: the day after February 28 is March 1.
    assert_eq!(format_date(Some(4_107_456_000)), "2100-02-28");
    assert_eq!(format_date(Some(4_107_456_000 + 86_400)), "2100-03-01");
    // 1600 is one (divisible by 400).
    assert_eq!(format_date(Some(-11_670_998_400)), "1600-02-29");
    assert_eq!(format_date(Some(-11_670_998_400 - 86_400)), "1600-02-28");
    // The first day of the common era.
    assert_eq!(format_date(Some(-62_135_596_800)), "0001-01-01");
}
