use textamp::text::{middle_truncate, needs_substitute, safe_text, sanitize, strip_md_emphasis, trim_end_str};

#[test]
fn safe_text_keeps_plain_titles() {
    assert_eq!(safe_text("Abbey Road"), "Abbey Road");
    assert_eq!(safe_text(""), "");
    assert_eq!(safe_text("Café — Ünïcödé"), "Café — Ünïcödé");
}

#[test]
fn safe_text_strips_variation_selectors_zwj_and_tags() {
    assert_eq!(safe_text("\u{2600}\u{FE0F} Sunny"), "\u{2600} Sunny");
    assert_eq!(safe_text("a\u{200D}b"), "ab");
    assert_eq!(safe_text("\u{1F3F4}\u{E0067}\u{E0062}\u{E007F}x"), "\u{1F3F4}x");
    assert_eq!(safe_text("x\u{E0100}y"), "xy");
}

#[test]
fn safe_text_strips_controls_format_and_private_use() {
    assert_eq!(safe_text("a\tb\nc\u{7}"), "abc");
    assert_eq!(safe_text("\u{FEFF}bom"), "bom");
    assert_eq!(safe_text("soft\u{00AD}hyphen"), "softhyphen");
    assert_eq!(safe_text("pua\u{E000}\u{F8FF}\u{F0000}"), "pua");
    assert_eq!(safe_text("c1\u{85}\u{9F}"), "c1");
}

#[test]
fn safe_text_substitutes_heavy_heart() {
    assert_eq!(safe_text("I \u{2764} Mixes"), "I \u{2665} Mixes");
    assert_eq!(safe_text("\u{2764}\u{FE0F} Loved"), "\u{2665} Loved");
}

#[test]
fn needs_substitute_only_for_heavy_heart() {
    assert_eq!(needs_substitute('\u{2764}'), Some('\u{2665}'));
    assert_eq!(needs_substitute('\u{2665}'), None);
    assert_eq!(needs_substitute('a'), None);
}

#[test]
fn sanitize_trims_after_stripping() {
    assert_eq!(sanitize("  Title  "), "Title");
    assert_eq!(sanitize("\u{FE0F} Title \u{200D}"), "Title");
    assert_eq!(sanitize("\u{3000}wide\u{00A0}"), "wide");
    assert_eq!(sanitize("   "), "");
    assert_eq!(sanitize("a  b"), "a  b");
}

#[test]
fn trim_end_only_trailing() {
    assert_eq!(trim_end_str("  x  "), "  x");
    assert_eq!(trim_end_str("line\r"), "line");
    assert_eq!(trim_end_str(""), "");
}

#[test]
fn middle_truncate_keeps_short_names() {
    assert_eq!(middle_truncate("short", 10), "short");
    assert_eq!(middle_truncate("exactly10!", 10), "exactly10!");
}

#[test]
fn middle_truncate_collapses_the_middle() {
    // budget 8: body 7, prefix 4, suffix 3
    assert_eq!(middle_truncate("abcdefghijkl", 8), "abcd\u{2026}jkl");
    // budget 7: body 6, prefix 3, suffix 3
    assert_eq!(middle_truncate("abcdefghijkl", 7), "abc\u{2026}jkl");
    assert_eq!(middle_truncate("abcdef", 1), "\u{2026}");
    assert_eq!(middle_truncate("abcdef", 0), "\u{2026}");
}

#[test]
fn middle_truncate_result_fits_budget() {
    let s = "The Very Long Name Of Some Album Deluxe Edition";
    for max in 1..s.chars().count() {
        assert_eq!(middle_truncate(s, max).chars().count(), max);
    }
}

#[test]
fn strip_md_emphasis_drops_markers() {
    assert_eq!(strip_md_emphasis("**bold** and *it*"), "bold and it");
    assert_eq!(strip_md_emphasis("use `cargo run`"), "use cargo run");
    assert_eq!(strip_md_emphasis("__under__ score_name"), "under score_name");
    assert_eq!(strip_md_emphasis("***"), "");
    assert_eq!(strip_md_emphasis("plain"), "plain");
}

#[test]
fn safe_text_is_stable() {
    for s in ["\u{2764}\u{FE0F} Loved", "a\u{200D}b\tc", "plain", "\u{E000}\u{2665}"] {
        let once = safe_text(s);
        assert_eq!(safe_text(&once), once);
        assert!(!once.contains('\u{2764}'));
    }
}
