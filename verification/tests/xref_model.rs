use opencad_xref::wildcard::wildcard_match;
use opencad_xref::xref_model::{
    bind_symbol, bind_symbol_taken, normalize_display, normalize_lexical, to_pathtype,
    to_pathtype_in_dir, to_pathtype_result, to_pathtype_result_in_dir, Pathtype, PathtypeError,
    RefKind, ReferenceEntry,
};

#[test]
fn lexical_normalize_missing_file_no_fs_touch() {
    let a = normalize_lexical("C:\\Host\\PLAN.dwg");
    let b = normalize_lexical("c:/host/./plan.dwg");
    assert_eq!(a, b);
    let c = normalize_lexical("C:\\NoSuchDir\\Sub\\..\\REF.DWG");
    let d = normalize_lexical("c:\\nosuchdir\\ref.dwg");
    assert_eq!(c, d);
}

#[test]
fn lexical_normalize_exact_forms() {
    assert_eq!(normalize_lexical("C:\\Host\\PLAN.dwg"), "c:/host/plan.dwg");
    assert_eq!(
        normalize_lexical("C:\\NoSuchDir\\Sub\\..\\REF.DWG"),
        "c:/nosuchdir/ref.dwg"
    );
    assert_eq!(
        normalize_lexical("//SERVER/Share/./File.DWG"),
        "//server/share/file.dwg"
    );
    assert_eq!(normalize_lexical("c:/a/../../b.dwg"), "c:/b.dwg");
    assert_eq!(normalize_lexical("rel/../../x.dwg"), "../x.dwg");
    assert_eq!(normalize_lexical("a//b\\\\c.dwg"), "a/b/c.dwg");
    assert_eq!(normalize_lexical("a/b/"), "a/b");
    assert_eq!(normalize_lexical(""), "");
    assert_eq!(normalize_lexical("."), "");
}

#[test]
fn pathtype_full_relative_none_roundtrip() {
    let host = "C:/Drawings/host.dwg";
    let full = to_pathtype("C:/Drawings/refs/plan.dwg", host, Pathtype::Full);
    assert_eq!(full, "C:/Drawings/refs/plan.dwg");
    let rel = to_pathtype("C:/Drawings/refs/plan.dwg", host, Pathtype::Relative);
    assert_eq!(rel, "refs/plan.dwg");
    let none = to_pathtype("C:/Drawings/refs/plan.dwg", host, Pathtype::NoPath);
    assert_eq!(none, "plan.dwg");
}

#[test]
fn relative_across_drives_errors() {
    let host = "C:/Drawings/host.dwg";
    let err = to_pathtype_result("D:/Lib/plan.dwg", host, Pathtype::Relative);
    assert_eq!(err, Err(PathtypeError::AcrossDrives));
}

#[test]
fn wildcard_name_match_case_insensitive() {
    assert!(wildcard_match("PLAN-East", "plan-*"));
    assert!(wildcard_match("A1", "a?"));
    assert!(!wildcard_match("A12", "a?"));
}

#[test]
fn entry_key_stable_across_rename() {
    let a = ReferenceEntry::new(101, "PLAN", RefKind::DwgXref);
    let b = a.renamed("PLAN-EAST");
    assert_eq!(a.key, b.key);
    assert_eq!(b.name, "PLAN-EAST");
}

#[test]
fn bind_chain_naming_transitive() {
    assert_eq!(bind_symbol("PLAN", "DETAIL", "WALLS"), "PLAN$0$DETAIL$0$WALLS");
    assert_eq!(bind_symbol_taken("PLAN", "WALLS", &["PLAN$0$WALLS"]), "PLAN$1$WALLS");
}

// ── Further cases ─────────────────────────────────────────────────────────

#[test]
fn display_keeps_case_and_cleans_components() {
    assert_eq!(normalize_display("C:\\Host\\.\\Sub\\..\\PLAN.dwg"), "C:/Host/PLAN.dwg");
    assert_eq!(normalize_display("///Server//Share/x"), "//Server/Share/x");
    assert_eq!(normalize_display("/../a"), "/a");
    // A `..` pops whatever precedes it, a leading one included.
    assert_eq!(normalize_display("../../x"), "x");
}

#[test]
fn lexical_is_idempotent_on_examples() {
    for raw in ["C:\\A\\..\\B\\c.DWG", "//Srv/Sh/../x", "rel/../../y", "/a/./b/", ""] {
        let once = normalize_lexical(raw);
        assert_eq!(normalize_lexical(&once), once);
    }
}

#[test]
fn relative_climbs_out_of_the_host_directory() {
    let rel = to_pathtype_in_dir("C:/Lib/plan.dwg", Some("C:/Drawings/Sub"), Pathtype::Relative);
    assert_eq!(rel, "../../Lib/plan.dwg");
    // Same directory: only the file name is left.
    let same = to_pathtype_result_in_dir("c:/drawings/PLAN.dwg", Some("C:/Drawings"), Pathtype::Relative);
    assert_eq!(same, Ok("PLAN.dwg".to_string()));
}

#[test]
fn relative_conversion_errors_and_fallbacks() {
    assert_eq!(
        to_pathtype_result_in_dir("a.dwg", None, Pathtype::Relative),
        Err(PathtypeError::UnsavedHost)
    );
    assert_eq!(
        to_pathtype_result_in_dir("//srv/share/a.dwg", Some("C:/x"), Pathtype::Relative),
        Err(PathtypeError::AcrossDrives)
    );
    // An already relative target keeps its display form.
    assert_eq!(
        to_pathtype_result_in_dir("refs\\A.dwg", Some("C:/x"), Pathtype::Relative),
        Ok("refs/A.dwg".to_string())
    );
    // The panic-free form falls back to the full path.
    assert_eq!(
        to_pathtype_in_dir("D:\\Lib\\plan.dwg", Some("C:/x"), Pathtype::Relative),
        "D:/Lib/plan.dwg"
    );
    let host = "host.dwg";
    assert_eq!(
        to_pathtype_result("C:/a.dwg", host, Pathtype::Relative),
        Err(PathtypeError::UnsavedHost)
    );
    assert_eq!(to_pathtype("C:/a.dwg", host, Pathtype::Relative), "C:/a.dwg");
}

#[test]
fn file_name_strips_drive() {
    let host = "C:/x/h.dwg";
    assert_eq!(to_pathtype("C:plan.dwg", host, Pathtype::NoPath), "plan.dwg");
    assert_eq!(to_pathtype("", host, Pathtype::NoPath), "");
}

#[test]
fn wildcard_glob_cases() {
    assert!(wildcard_match("", "*"));
    assert!(wildcard_match("abc", "*c"));
    assert!(wildcard_match("abcbc", "a*bc"));
    assert!(!wildcard_match("abc", "a*d"));
    assert!(wildcard_match("Ärger", "ä*"));
    assert!(!wildcard_match("", "?"));
}

#[test]
fn bind_symbol_taken_skips_every_collision() {
    assert_eq!(bind_symbol_taken("P", "S", &[]), "P$0$S");
    let taken = ["P$0$S", "P$1$S", "P$2$S", "other"];
    assert_eq!(bind_symbol_taken("P", "S", &taken), "P$3$S");
}

#[test]
fn new_entry_defaults() {
    let e = ReferenceEntry::new(7, "IMG", RefKind::Image);
    assert!(e.loaded);
    assert_eq!(e.saved_path, "");
    assert!(e.found_at.is_none() && e.size_bytes.is_none() && e.modified.is_none());
}

#[test]
fn relative_form_against_a_host_in_a_plain_directory() {
    assert_eq!(
        to_pathtype_result("Drawings/refs/plan.dwg", "Drawings/host.dwg", Pathtype::Relative),
        Ok("refs/plan.dwg".to_string())
    );
    assert_eq!(to_pathtype_result("refs/plan.dwg", "host.dwg", Pathtype::Relative), Err(PathtypeError::UnsavedHost));
    assert_eq!(to_pathtype_result("refs/plan.dwg", "", Pathtype::Relative), Err(PathtypeError::UnsavedHost));
}

#[test]
fn a_star_in_the_name_is_an_ordinary_character() {
    assert!(wildcard_match("*x", "*"));
    assert!(wildcard_match("*x", "*x"));
    assert!(wildcard_match("*x", "?x"));
    assert!(wildcard_match("a*b", "a*"));
    assert!(!wildcard_match("*x", "x"));
    assert!(!wildcard_match("*x", "*y"));
}

#[test]
fn relative_form_against_the_hosts_directory() {
    assert_eq!(
        to_pathtype_result("C:/Drawings/refs/plan.dwg", "C:/Draw/host.dwg", Pathtype::Relative),
        Ok("../Drawings/refs/plan.dwg".to_string())
    );
    assert_eq!(
        to_pathtype_result("c:/Drawings/refs/plan.dwg", "C:/Drawings/host.dwg", Pathtype::Relative),
        Ok("refs/plan.dwg".to_string())
    );
    assert_eq!(
        to_pathtype_result("D:/Lib/plan.dwg", "C:/Drawings/host.dwg", Pathtype::Relative),
        Err(PathtypeError::AcrossDrives)
    );
    assert_eq!(to_pathtype("D:\\Lib\\plan.dwg", "C:/Drawings/host.dwg", Pathtype::Relative), "D:/Lib/plan.dwg");
    assert_eq!(to_pathtype("C:/Drawings/refs/plan.dwg", "/srv/Drawings/host.dwg", Pathtype::Relative), "C:/Drawings/refs/plan.dwg");
}

#[test]
fn lexical_identity_ignores_separator_style_and_drive_case() {
    assert_eq!(normalize_lexical("C:\\Host\\Sub\\PLAN.dwg"), normalize_lexical("C:/Host/Sub/PLAN.dwg"));
    assert_eq!(normalize_lexical("C:/Host/PLAN.dwg"), normalize_lexical("c:/Host/PLAN.dwg"));
    assert_eq!(normalize_display("a\\b\\c.dwg"), normalize_display("a/b/c.dwg"));
}
