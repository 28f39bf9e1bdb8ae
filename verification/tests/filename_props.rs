use screengrab::filename::{build_filename, is_blank, normalized};

const TS: &str = "2024-01-02_03-04-05.678";

fn fname_char(c: char) -> bool {
    c.is_ascii_alphanumeric() || c == '-' || c == '_' || c == '.'
}

fn assert_well_formed(name: &str) {
    assert!(name.chars().all(fname_char), "bad character in {name:?}");
    assert!(name.ends_with(".png"), "missing extension in {name:?}");
    assert!(name.len() > ".png".len(), "empty stem in {name:?}");
}

#[test]
fn filenames_are_safe_for_degenerate_names() {
    let inputs = [
        "",
        "   ",
        "///",
        "a b",
        "Ünïcödé",
        "con\ttrol\nchars\r",
        "path/sep\\arators",
        "..",
        "name.with.dots",
        "\u{0}\u{1}\u{7f}",
    ];
    for (i, raw) in inputs.iter().enumerate() {
        let name = build_filename(TS, i, raw);
        assert_well_formed(&name);
    }
}

#[test]
fn filename_composition_is_exact() {
    assert_eq!(
        build_filename(TS, 0, "Main"),
        "2024-01-02_03-04-05.678-0-Main.png"
    );
    assert_eq!(
        build_filename(TS, 1, ""),
        "2024-01-02_03-04-05.678-1-monitor1.png"
    );
    assert_eq!(
        build_filename(TS, 12, "DELL U2720Q (HDMI)"),
        "2024-01-02_03-04-05.678-12-DELL_U2720Q_HDMI.png"
    );
}

#[test]
fn blank_names_get_the_monitor_substitute() {
    assert_eq!(build_filename(TS, 3, "   "), format!("{TS}-3-monitor3.png"));
    assert_eq!(build_filename(TS, 3, "\t\r\n"), format!("{TS}-3-monitor3.png"));
    assert_eq!(build_filename(TS, 2, "\u{a0}\u{2003}"), format!("{TS}-2-monitor2.png"));
    assert!(is_blank(""));
    assert!(is_blank(" \t "));
    assert!(is_blank("\u{a0}"));
    assert!(!is_blank(" x "));
}

#[test]
fn different_ordinals_give_different_filenames() {
    for raw in ["Main", "", "///", "same name"] {
        let a = build_filename(TS, 0, raw);
        let b = build_filename(TS, 1, raw);
        assert_ne!(a, b, "collision for {raw:?}");
        let c = build_filename(TS, 2, raw);
        let d = build_filename(TS, 12, raw);
        assert_ne!(c, d, "collision for {raw:?}");
    }
}

#[test]
fn sanitization_collapses_and_trims() {
    assert_eq!(normalized("a   b///c"), "a_b_c");
    assert_eq!(normalized("__a__"), "a");
    assert_eq!(normalized(""), "");
    assert_eq!(normalized("***"), "");
    assert_eq!(normalized("Display-1_ok"), "Display-1_ok");
    assert_eq!(normalized(" spaced out "), "spaced_out");
    assert_eq!(normalized("Ünïcödé"), "n_c_d");
}
