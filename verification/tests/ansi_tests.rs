use textamp::ansi::{
    apply_sgr, original, parse_ansi_line, parse_line_to_spans, parse_number, render_ansi, rgb, sgr_params, themed,
    tint, StyledSpan, TermColor,
};

fn view<C: Copy>(spans: &[StyledSpan<C>]) -> Vec<(String, Option<C>, Option<C>)> {
    spans.iter().map(|s| (s.text.clone(), s.fg, s.bg)).collect()
}

fn chars(s: &str) -> Vec<char> {
    s.chars().collect()
}

#[test]
fn logo_line_sets_truecolor_and_resets() {
    let r = parse_ansi_line("\x1b[38;2;255;0;0mAB\x1b[0mC", TermColor::Reset);
    assert_eq!(
        view(&r),
        vec![
            ("AB".to_string(), Some(TermColor::Rgb(255, 0, 0)), None),
            ("C".to_string(), None, None),
        ]
    );
}

#[test]
fn logo_line_maps_black_to_theme_background() {
    let r = parse_ansi_line("\x1b[48;2;0;0;0;38;2;1;2;3mX", TermColor::Blue);
    assert_eq!(view(&r), vec![("X".to_string(), Some(TermColor::Rgb(1, 2, 3)), Some(TermColor::Blue))]);
}

#[test]
fn logo_line_skips_private_sequences_and_empty_sgr_resets() {
    let r = parse_ansi_line("\x1b[?25lHi", TermColor::Reset);
    assert_eq!(view(&r), vec![("Hi".to_string(), None, None)]);
    let r = parse_ansi_line("\x1b[38;2;9;9;9mA\x1b[mB", TermColor::Reset);
    assert_eq!(
        view(&r),
        vec![("A".to_string(), Some(TermColor::Rgb(9, 9, 9)), None), ("B".to_string(), None, None)]
    );
}

#[test]
fn logo_line_drops_out_of_range_parameters() {
    // 300 does not fit a byte, so `38;2;300;0;0` loses a parameter and sets nothing.
    let r = parse_ansi_line("\x1b[38;2;300;0;0mX", TermColor::Reset);
    assert_eq!(view(&r), vec![("X".to_string(), None, None)]);
}

#[test]
fn logo_line_unterminated_sequence_ends_line() {
    let r = parse_ansi_line("ab\x1b[38;2", TermColor::Reset);
    assert_eq!(view(&r), vec![("ab".to_string(), None, None)]);
    assert!(parse_ansi_line("", TermColor::Reset).is_empty());
}

#[test]
fn original_drops_lines_without_spans() {
    let raw = "\x1b[38;2;1;1;1mA\n\x1b[0m\nB\r\n";
    let lines = original(raw, TermColor::Reset);
    assert_eq!(lines.len(), 2);
    assert_eq!(view(&lines[0]), vec![("A".to_string(), Some(TermColor::Rgb(1, 1, 1)), None)]);
    assert_eq!(view(&lines[1]), vec![("B".to_string(), None, None)]);
}

#[test]
fn tint_maps_luminance_onto_gradient() {
    let black = TermColor::Rgb(0, 0, 0);
    let accent = TermColor::Rgb(200, 100, 50);
    assert_eq!(tint(TermColor::White, black, accent), TermColor::Rgb(200, 100, 50));
    assert_eq!(tint(TermColor::Rgb(100, 100, 100), black, accent), TermColor::Rgb(78, 39, 19));
    // Named colors other than white count as black: the background comes through.
    assert_eq!(tint(TermColor::Red, TermColor::Rgb(10, 20, 30), accent), TermColor::Rgb(10, 20, 30));
}

#[test]
fn themed_tints_both_colors() {
    let lines = themed("\x1b[38;2;255;255;255;48;2;0;0;0mX", TermColor::Rgb(10, 20, 30), TermColor::Rgb(200, 100, 50));
    assert_eq!(lines.len(), 1);
    assert_eq!(
        view(&lines[0]),
        vec![("X".to_string(), Some(TermColor::Rgb(200, 100, 50)), Some(TermColor::Rgb(10, 20, 30)))]
    );
}

#[test]
fn parse_number_accepts_bounded_decimals() {
    assert_eq!(parse_number(&chars("38"), 255), Some(38));
    assert_eq!(parse_number(&chars("+7"), 255), Some(7));
    assert_eq!(parse_number(&chars("256"), 255), None);
    assert_eq!(parse_number(&chars(""), 255), None);
    assert_eq!(parse_number(&chars("1a"), 255), None);
    assert_eq!(parse_number(&chars("65535"), 65535), Some(65535));
}

#[test]
fn sgr_params_keeps_parsable_tokens() {
    let cs = chars("x38;;2;999;5m");
    assert_eq!(sgr_params(&cs, 1, 12, 255), vec![38, 2, 5]);
    assert_eq!(sgr_params(&cs, 1, 12, 65535), vec![38, 2, 999, 5]);
}

#[test]
fn about_rgb_clamps_channels() {
    assert_eq!(rgb(300, 128, 0), (255, 128, 0));
}

#[test]
fn about_apply_sgr_sets_and_resets() {
    let mut fg = None;
    let mut bg = Some((1, 1, 1));
    apply_sgr(&vec![38, 2, 10, 20, 30], &mut fg, &mut bg);
    assert_eq!(fg, Some((10, 20, 30)));
    assert_eq!(bg, Some((1, 1, 1)));
    apply_sgr(&vec![48, 2, 999, 0, 0, 1], &mut fg, &mut bg);
    assert_eq!(bg, Some((255, 0, 0)));
    apply_sgr(&vec![0], &mut fg, &mut bg);
    assert_eq!((fg, bg), (None, None));
    apply_sgr(&vec![38, 5, 1], &mut fg, &mut bg);
    assert_eq!((fg, bg), (None, None));
}

#[test]
fn about_line_ignores_cursor_ops_and_drops_malformed_tail() {
    let r = parse_line_to_spans("\x1b[?25lA\x1b[38;2;1;2;3mB\x1b[2JC\x1b[0");
    assert_eq!(
        view(&r),
        vec![
            ("A".to_string(), None, None),
            ("B".to_string(), Some((1, 2, 3)), None),
            ("C".to_string(), Some((1, 2, 3)), None),
        ]
    );
}

#[test]
fn render_ansi_keeps_every_line() {
    let lines = render_ansi("a\n\n\x1b[48;2;0;0;0mb");
    assert_eq!(lines.len(), 3);
    assert_eq!(view(&lines[0]), vec![("a".to_string(), None, None)]);
    assert!(lines[1].is_empty());
    assert_eq!(view(&lines[2]), vec![("b".to_string(), None, Some((0, 0, 0)))]);
}
