//! ANSI art to styled spans. Two readers share the SGR machinery: the
//! terminal logo reader (private `?` sequences skipped, 8-bit parameters,
//! true black mapped to the theme background) and the About-popup reader
//! (CSI sequences ended by `m h l H J K`, 16-bit parameters clamped to a
//! byte per channel).

use vstd::prelude::*;
use crate::strings::{push_char, empty_string, chars_of};

verus! {

/// Terminal colors (the palette of a terminal cell).
#[derive(PartialEq, Eq, Structural, Clone, Copy, Debug)]
pub enum TermColor {
    Reset,
    Black,
    Red,
    Green,
    Yellow,
    Blue,
    Magenta,
    Cyan,
    Gray,
    DarkGray,
    LightRed,
    LightGreen,
    LightYellow,
    LightBlue,
    LightMagenta,
    LightCyan,
    White,
    Rgb(u8, u8, u8),
    Indexed(u8),
}

/// A run of text with optional foreground and background colors.
#[derive(Clone, Debug)]
pub struct StyledSpan<C> {
    pub text: String,
    pub fg: Option<C>,
    pub bg: Option<C>,
}

/// The mathematical form of a span: its characters and colors.
pub type SpanView<C> = (Seq<char>, Option<C>, Option<C>);

/// The spans of `v` as values.
pub open spec fn spans_view<C>(v: Seq<StyledSpan<C>>) -> Seq<SpanView<C>> {
    v.map_values(|s: StyledSpan<C>| (s.text@, s.fg, s.bg))
}

/// `out` with `text` appended as a span, unless `text` is empty.
pub open spec fn flush<C>(out: Seq<SpanView<C>>, text: Seq<char>, fg: Option<C>, bg: Option<C>) -> Seq<
    SpanView<C>,
> {
    if text.len() == 0 {
        out
    } else {
        out.push((text, fg, bg))
    }
}

/// ASCII digit.
pub open spec fn is_ascii_digit(c: char) -> bool {
    '0' <= c && c <= '9'
}

/// ASCII letter.
pub open spec fn is_ascii_alpha(c: char) -> bool {
    ('a' <= c && c <= 'z') || ('A' <= c && c <= 'Z')
}

/// Value of a run of decimal digits.
pub open spec fn digits_value(s: Seq<char>) -> nat
    decreases s.len(),
{
    if s.len() == 0 {
        0
    } else {
        digits_value(s.drop_last()) * 10 + ((s.last() as nat) - ('0' as nat)) as nat
    }
}

/// Whether every character of `s` is an ASCII digit.
pub open spec fn all_digits(s: Seq<char>) -> bool {
    forall|k: int| 0 <= k < s.len() ==> is_ascii_digit(#[trigger] s[k])
}

/// A token without its optional leading `+`.
pub open spec fn unsigned_digits(tok: Seq<char>) -> Seq<char> {
    if tok.len() > 0 && tok[0] == '+' {
        tok.drop_first()
    } else {
        tok
    }
}

/// `str::parse` of an unsigned integer type whose largest value is `max`:
/// an optional `+`, then one or more digits, with a value of at most `max`.
pub open spec fn parse_uint(tok: Seq<char>, max: nat) -> Option<nat> {
    let d = unsigned_digits(tok);
    if d.len() > 0 && all_digits(d) && digits_value(d) <= max {
        Some(digits_value(d))
    } else {
        None
    }
}

/// The numbers of a `;`-separated parameter list: each `;`-delimited token
/// (the pending one is `tok`) that parses is kept, the others dropped.
pub open spec fn sgr_numbers(s: Seq<char>, tok: Seq<char>, max: nat) -> Seq<nat>
    decreases s.len(),
{
    if s.len() == 0 {
        emit(tok, max)
    } else if s[0] == ';' {
        emit(tok, max) + sgr_numbers(s.drop_first(), Seq::<char>::empty(), max)
    } else {
        sgr_numbers(s.drop_first(), tok.push(s[0]), max)
    }
}

/// The one-element list of a parsed token, or nothing.
pub open spec fn emit(tok: Seq<char>, max: nat) -> Seq<nat> {
    match parse_uint(tok, max) {
        Some(v) => seq![v],
        None => Seq::<nat>::empty(),
    }
}

// ---------------------------------------------------------------------
// Number parsing
// ---------------------------------------------------------------------

pub(crate) proof fn lemma_digits_value_step(s: Seq<char>, i: int)
    requires
        0 <= i < s.len(),
    ensures
        digits_value(s.take(i + 1)) == digits_value(s.take(i)) * 10 + ((s[i] as nat) - ('0' as nat)) as nat,
{
    assert(s.take(i + 1).drop_last() =~= s.take(i));
}

/// `str::parse::<uN>` of the characters `tok`, for an unsigned type whose
/// largest value is `max`.
pub fn parse_number(tok: &Vec<char>, max: u32) -> (r: Option<u32>)
    ensures
        match r {
            Some(v) => parse_uint(tok@, max as nat) == Some(v as nat),
            None => parse_uint(tok@, max as nat) is None,
        },
{
    let start: usize = if tok.len() > 0 && tok[0] == '+' { 1 } else { 0 };
    let ghost d = unsigned_digits(tok@);
    proof {
        assert(d =~= tok@.skip(start as int));
    }
    if start >= tok.len() {
        return None;
    }
    let cap: u64 = max as u64 + 1;
    let mut value: u64 = 0;
    let mut i: usize = start;
    while i < tok.len()
        invariant
            start <= i <= tok@.len(),
            d =~= tok@.skip(start as int),
            d == unsigned_digits(tok@),
            cap == max as u64 + 1,
            forall|k: int| start <= k < i ==> is_ascii_digit(#[trigger] tok@[k]),
            value as nat == (if digits_value(d.take(i - start)) < cap as nat {
                digits_value(d.take(i - start))
            } else {
                cap as nat
            }),
        decreases tok@.len() - i,
    {
        let c = tok[i];
        if !('0' <= c && c <= '9') {
            proof {
                assert(d[i - start] == tok@[i as int]);
                assert(!is_ascii_digit(d[i - start]));
                assert(!(forall|k: int| 0 <= k < d.len() ==> is_ascii_digit(#[trigger] d[k])));
            }
            return None;
        }
        let dv: u64 = (c as u64) - ('0' as u64);
        proof {
            lemma_digits_value_step(d, i - start);
            assert(d[i - start] == c);
            let whole = digits_value(d.take(i - start));
            assert(whole >= cap ==> whole * 10 + dv >= cap) by (nonlinear_arith)
                requires
                    dv >= 0,
            ;
        }
        let next: u64 = value * 10 + dv;
        value = if next < cap { next } else { cap };
        i = i + 1;
    }
    proof {
        assert(d.len() == i - start);
        assert(d.take(i - start) =~= d);
        assert forall|k: int| 0 <= k < d.len() implies is_ascii_digit(#[trigger] d[k]) by {
            assert(d[k] == tok@[k + start]);
        }
        assert(value >= cap ==> digits_value(d) >= cap);
        assert(value < cap ==> digits_value(d) == value);
    }
    if value < cap {
        Some(value as u32)
    } else {
        None
    }
}

/// The numeric parameters of an SGR parameter string (`38;2;255;0;0`):
/// tokens between `;` that parse as integers of at most `max`.
pub fn sgr_params(s: &Vec<char>, lo: usize, hi: usize, max: u32) -> (r: Vec<u32>)
    requires
        lo <= hi <= s@.len(),
    ensures
        r@.map_values(|v: u32| v as nat) == sgr_numbers(s@.subrange(lo as int, hi as int), Seq::<char>::empty(), max as nat),
{
    let ghost src = s@.subrange(lo as int, hi as int);
    let mut out: Vec<u32> = Vec::new();
    let mut tok: Vec<char> = Vec::new();
    let mut i: usize = lo;
    proof {
        assert(src.skip(0) =~= src);
    }
    while i < hi
        invariant
            lo <= i <= hi <= s@.len(),
            src == s@.subrange(lo as int, hi as int),
            out@.map_values(|v: u32| v as nat) + sgr_numbers(src.skip(i - lo), tok@, max as nat)
                == sgr_numbers(src, Seq::<char>::empty(), max as nat),
        decreases hi - i,
    {
        let ghost rest = src.skip(i - lo);
        proof {
            assert(rest[0] == s@[i as int]);
            assert(rest.drop_first() =~= src.skip(i - lo + 1));
        }
        let c = s[i];
        if c == ';' {
            let ghost before = out@.map_values(|v: u32| v as nat);
            match parse_number(&tok, max) {
                Some(v) => {
                    out.push(v);
                    proof {
                        assert(out@.map_values(|v: u32| v as nat) =~= before + seq![v as nat]);
                    }
                },
                None => {
                    proof {
                        assert(out@.map_values(|v: u32| v as nat) =~= before + Seq::<nat>::empty());
                    }
                },
            }
            proof {
                assert(sgr_numbers(rest, tok@, max as nat) == emit(tok@, max as nat) + sgr_numbers(
                    rest.drop_first(),
                    Seq::<char>::empty(),
                    max as nat,
                ));
                assert(out@.map_values(|v: u32| v as nat) + sgr_numbers(src.skip(i - lo + 1), Seq::<char>::empty(), max as nat)
                    =~= before + sgr_numbers(rest, tok@, max as nat));
            }
            tok = Vec::new();
        } else {
            tok.push(c);
        }
        i = i + 1;
    }
    let ghost before = out@.map_values(|v: u32| v as nat);
    proof {
        assert(src.skip(i - lo) =~= Seq::<char>::empty());
    }
    match parse_number(&tok, max) {
        Some(v) => {
            out.push(v);
            proof {
                assert(out@.map_values(|v: u32| v as nat) =~= before + seq![v as nat]);
            }
        },
        None => {
            proof {
                assert(out@.map_values(|v: u32| v as nat) =~= before + Seq::<nat>::empty());
            }
        },
    }
    out
}

// ---------------------------------------------------------------------
// SGR state
// ---------------------------------------------------------------------

/// Logo palette: a 24-bit color, except pure black, which becomes the
/// theme background.
pub open spec fn logo_color(r: nat, g: nat, b: nat, theme_bg: TermColor) -> TermColor {
    if r == 0 && g == 0 && b == 0 {
        theme_bg
    } else {
        TermColor::Rgb(r as u8, g as u8, b as u8)
    }
}

/// Colors after the SGR parameters `p` from index `j` on: `0` resets both,
/// `38;2;R;G;B` sets the foreground, `48;2;R;G;B` the background, anything
/// else is skipped one parameter at a time.
pub open spec fn apply_logo(
    p: Seq<nat>,
    j: int,
    fg: Option<TermColor>,
    bg: Option<TermColor>,
    theme_bg: TermColor,
) -> (Option<TermColor>, Option<TermColor>)
    decreases p.len() - j,
{
    if j < 0 || j >= p.len() {
        (fg, bg)
    } else if p[j] == 0 {
        apply_logo(p, j + 1, None, None, theme_bg)
    } else if p[j] == 38 && j + 4 < p.len() && p[j + 1] == 2 {
        apply_logo(p, j + 5, Some(logo_color(p[j + 2], p[j + 3], p[j + 4], theme_bg)), bg, theme_bg)
    } else if p[j] == 48 && j + 4 < p.len() && p[j + 1] == 2 {
        apply_logo(p, j + 5, fg, Some(logo_color(p[j + 2], p[j + 3], p[j + 4], theme_bg)), theme_bg)
    } else {
        apply_logo(p, j + 1, fg, bg, theme_bg)
    }
}

/// Colors after one logo SGR sequence; an empty parameter list resets.
pub open spec fn sgr_logo(p: Seq<nat>, fg: Option<TermColor>, bg: Option<TermColor>, theme_bg: TermColor) -> (
    Option<TermColor>,
    Option<TermColor>,
) {
    if p.len() == 0 {
        (None, None)
    } else {
        apply_logo(p, 0, fg, bg, theme_bg)
    }
}

// ---------------------------------------------------------------------
// Terminal logo reader
// ---------------------------------------------------------------------

/// Spans of the logo line `cs` read from index `i` on, in plain text
/// with `text` pending under colors `fg`/`bg`, after the spans `out`.
pub open spec fn logo_text(
    cs: Seq<char>,
    i: int,
    text: Seq<char>,
    fg: Option<TermColor>,
    bg: Option<TermColor>,
    theme_bg: TermColor,
    out: Seq<SpanView<TermColor>>,
) -> Seq<SpanView<TermColor>>
    decreases cs.len() - i,
{
    if i < 0 || i >= cs.len() {
        flush(out, text, fg, bg)
    } else if cs[i] == '\x1b' && i + 1 < cs.len() && cs[i + 1] == '[' {
        let out2 = flush(out, text, fg, bg);
        if i + 2 < cs.len() && cs[i + 2] == '?' {
            logo_private(cs, i + 2, fg, bg, theme_bg, out2)
        } else {
            logo_sgr(cs, i + 2, i + 2, fg, bg, theme_bg, out2)
        }
    } else {
        logo_text(cs, i + 1, text.push(cs[i]), fg, bg, theme_bg, out)
    }
}

/// Inside a private-mode sequence (`ESC[?25l`): skip to the first ASCII
/// letter, which ends it.
pub open spec fn logo_private(
    cs: Seq<char>,
    k: int,
    fg: Option<TermColor>,
    bg: Option<TermColor>,
    theme_bg: TermColor,
    out: Seq<SpanView<TermColor>>,
) -> Seq<SpanView<TermColor>>
    decreases cs.len() - k,
{
    if k < 0 || k >= cs.len() {
        out
    } else if is_ascii_alpha(cs[k]) {
        logo_text(cs, k + 1, Seq::<char>::empty(), fg, bg, theme_bg, out)
    } else {
        logo_private(cs, k + 1, fg, bg, theme_bg, out)
    }
}

/// Inside an SGR sequence whose parameters start at `start`: scan for the
/// closing `m`; an unterminated sequence drops the rest of the line.
pub open spec fn logo_sgr(
    cs: Seq<char>,
    start: int,
    k: int,
    fg: Option<TermColor>,
    bg: Option<TermColor>,
    theme_bg: TermColor,
    out: Seq<SpanView<TermColor>>,
) -> Seq<SpanView<TermColor>>
    decreases cs.len() - k,
{
    if k < 0 || k >= cs.len() {
        out
    } else if cs[k] == 'm' {
        let c = sgr_logo(sgr_numbers(cs.subrange(start, k), Seq::<char>::empty(), 255), fg, bg, theme_bg);
        logo_text(cs, k + 1, Seq::<char>::empty(), c.0, c.1, theme_bg, out)
    } else {
        logo_sgr(cs, start, k + 1, fg, bg, theme_bg, out)
    }
}

/// The spans of one logo line.
pub open spec fn logo_line_spec(line: Seq<char>, theme_bg: TermColor) -> Seq<SpanView<TermColor>> {
    logo_text(line, 0, Seq::<char>::empty(), None, None, theme_bg, Seq::<SpanView<TermColor>>::empty())
}

fn flush_into<C>(spans: &mut Vec<StyledSpan<C>>, text: String, fg: Option<C>, bg: Option<C>)
    ensures
        spans_view(final(spans)@) == flush(spans_view(old(spans)@), text@, fg, bg),
{
    if !text.as_str().is_empty() {
        let ghost before = spans@;
        let ghost tv = text@;
        spans.push(StyledSpan { text, fg, bg });
        proof {
            assert(spans_view(spans@) =~= spans_view(before).push((tv, fg, bg)));
        }
    }
}

fn apply_logo_params(
    ps: &Vec<u32>,
    fg: Option<TermColor>,
    bg: Option<TermColor>,
    theme_bg: TermColor,
) -> (r: (Option<TermColor>, Option<TermColor>))
    ensures
        r == sgr_logo(ps@.map_values(|v: u32| v as nat), fg, bg, theme_bg),
{
    let ghost p = ps@.map_values(|v: u32| v as nat);
    if ps.len() == 0 {
        return (None, None);
    }
    let mut f = fg;
    let mut b = bg;
    let mut j: usize = 0;
    while j < ps.len()
        invariant
            j <= ps@.len() + 4,
            p == ps@.map_values(|v: u32| v as nat),
            apply_logo(p, j as int, f, b, theme_bg) == apply_logo(p, 0, fg, bg, theme_bg),
        decreases ps@.len() + 4 - j,
    {
        if ps[j] == 0 {
            f = None;
            b = None;
            j = j + 1;
        } else if ps[j] == 38 && ps.len() - j > 4 && ps[j + 1] == 2 {
            f = Some(logo_rgb(ps[j + 2], ps[j + 3], ps[j + 4], theme_bg));
            j = j + 5;
        } else if ps[j] == 48 && ps.len() - j > 4 && ps[j + 1] == 2 {
            b = Some(logo_rgb(ps[j + 2], ps[j + 3], ps[j + 4], theme_bg));
            j = j + 5;
        } else {
            j = j + 1;
        }
    }
    (f, b)
}

fn logo_rgb(r: u32, g: u32, b: u32, theme_bg: TermColor) -> (c: TermColor)
    ensures
        c == logo_color(r as nat, g as nat, b as nat, theme_bg),
{
    if r == 0 && g == 0 && b == 0 {
        theme_bg
    } else {
        TermColor::Rgb(r as u8, g as u8, b as u8)
    }
}

/// Parse one line of ANSI art into styled spans: 24-bit SGR colors
/// (`38;2`/`48;2`), `0` resets, private sequences (`ESC[?25l`) skipped,
/// pure black replaced by the theme background.
pub fn parse_ansi_line(line: &str, theme_bg: TermColor) -> (r: Vec<StyledSpan<TermColor>>)
    ensures
        spans_view(r@) == logo_line_spec(line@, theme_bg),
{
    let cs = chars_of(line);
    let n = cs.len();
    let ghost total = logo_line_spec(line@, theme_bg);
    let mut spans: Vec<StyledSpan<TermColor>> = Vec::new();
    let mut text = empty_string();
    let mut fg: Option<TermColor> = None;
    let mut bg: Option<TermColor> = None;
    let mut i: usize = 0;
    proof {
        assert(spans_view(spans@) =~= Seq::<SpanView<TermColor>>::empty());
    }
    while i < n
        invariant
            i <= n,
            n == cs@.len(),
            cs@ == line@,
            total == logo_line_spec(line@, theme_bg),
            logo_text(cs@, i as int, text@, fg, bg, theme_bg, spans_view(spans@)) == total,
        decreases n - i,
    {
        if cs[i] == '\x1b' && i + 1 < n && cs[i + 1] == '[' {
            let ghost at = i as int;
            flush_into(&mut spans, text, fg, bg);
            text = empty_string();
            i = i + 2;
            if i < n && cs[i] == '?' {
                while i < n && !(('a' <= cs[i] && cs[i] <= 'z') || ('A' <= cs[i] && cs[i] <= 'Z'))
                    invariant
                        at + 2 <= i <= n,
                        n == cs@.len(),
                        cs@ == line@,
                        total == logo_line_spec(line@, theme_bg),
                        text@ == Seq::<char>::empty(),
                        logo_private(cs@, i as int, fg, bg, theme_bg, spans_view(spans@)) == total,
                    decreases n - i,
                {
                    i = i + 1;
                }
                if i < n {
                    i = i + 1;
                }
            } else {
                let start = i;
                while i < n && cs[i] != 'm'
                    invariant
                        start <= i <= n,
                        n == cs@.len(),
                        cs@ == line@,
                        total == logo_line_spec(line@, theme_bg),
                        text@ == Seq::<char>::empty(),
                        logo_sgr(cs@, start as int, i as int, fg, bg, theme_bg, spans_view(spans@)) == total,
                    decreases n - i,
                {
                    i = i + 1;
                }
                if i < n {
                    let ps = sgr_params(&cs, start, i, 255);
                    let c = apply_logo_params(&ps, fg, bg, theme_bg);
                    fg = c.0;
                    bg = c.1;
                    i = i + 1;
                } else {
                    i = n;
                }
            }
        } else {
            push_char(&mut text, cs[i]);
            i = i + 1;
        }
    }
    flush_into(&mut spans, text, fg, bg);
    spans
}

/// The span lists of the non-empty logo lines of `lines`, in order.
pub open spec fn logo_lines_spec(lines: Seq<Seq<char>>, theme_bg: TermColor) -> Seq<Seq<SpanView<TermColor>>>
    decreases lines.len(),
{
    if lines.len() == 0 {
        Seq::<Seq<SpanView<TermColor>>>::empty()
    } else {
        let rest = logo_lines_spec(lines.drop_last(), theme_bg);
        let spans = logo_line_spec(lines.last(), theme_bg);
        if spans.len() == 0 {
            rest
        } else {
            rest.push(spans)
        }
    }
}

/// The span lists of a list of span vectors.
pub open spec fn lines_view<C>(v: Seq<Vec<StyledSpan<C>>>) -> Seq<Seq<SpanView<C>>> {
    v.map_values(|l: Vec<StyledSpan<C>>| spans_view(l@))
}

/// Parse ANSI art into lines of styled spans, dropping lines that yield
/// no span; black is replaced by `theme_bg`.
pub fn original(raw: &str, theme_bg: TermColor) -> (r: Vec<Vec<StyledSpan<TermColor>>>)
    ensures
        lines_view(r@) == logo_lines_spec(crate::strings::lines_acc(raw@, Seq::<char>::empty()), theme_bg),
{
    let lines = crate::strings::split_lines(raw);
    let ghost ls = crate::strings::views(lines@);
    let mut out: Vec<Vec<StyledSpan<TermColor>>> = Vec::new();
    let mut i: usize = 0;
    proof {
        assert(ls.take(0) =~= Seq::<Seq<char>>::empty());
        assert(lines_view(out@) =~= Seq::<Seq<SpanView<TermColor>>>::empty());
    }
    while i < lines.len()
        invariant
            i <= lines@.len(),
            ls == crate::strings::views(lines@),
            lines_view(out@) == logo_lines_spec(ls.take(i as int), theme_bg),
        decreases lines@.len() - i,
    {
        let spans = parse_ansi_line(lines[i].as_str(), theme_bg);
        proof {
            assert(ls.take(i as int + 1).drop_last() =~= ls.take(i as int));
            assert(ls.take(i as int + 1).last() == lines@[i as int]@);
        }
        if spans.len() > 0 {
            let ghost before = lines_view(out@);
            let ghost sv = spans_view(spans@);
            out.push(spans);
            proof {
                assert(lines_view(out@) =~= before.push(sv));
            }
        }
        i = i + 1;
    }
    proof {
        assert(ls.take(i as int) =~= ls);
    }
    out
}

/// The RGB channels a color contributes to tinting: its own for 24-bit
/// colors, full white for `White`, black otherwise.
pub open spec fn channels(c: TermColor) -> (nat, nat, nat) {
    match c {
        TermColor::Rgb(r, g, b) => (r as nat, g as nat, b as nat),
        TermColor::White => (255, 255, 255),
        _ => (0, 0, 0),
    }
}

/// Luma-weighted intensity (0..=255) of channels.
pub open spec fn intensity(ch: (nat, nat, nat)) -> nat {
    (54 * ch.0 + 183 * ch.1 + 19 * ch.2) / 256
}

/// Blend of a background and an accent channel by intensity `t`.
pub open spec fn blend(bgc: int, acc: int, t: int) -> int {
    (bgc * (255 - t) + acc * t) / 255
}

/// Map the luminance of `color` onto the gradient from the theme
/// background (dark) to the theme accent (bright).
pub open spec fn tint_spec(color: TermColor, bg_primary: TermColor, fg_accent: TermColor) -> TermColor {
    let t = intensity(channels(color));
    let b = channels(bg_primary);
    let a = channels(fg_accent);
    TermColor::Rgb(
        blend(b.0 as int, a.0 as int, t as int) as u8,
        blend(b.1 as int, a.1 as int, t as int) as u8,
        blend(b.2 as int, a.2 as int, t as int) as u8,
    )
}

fn channels_of(c: TermColor) -> (r: (u32, u32, u32))
    ensures
        (r.0 as nat, r.1 as nat, r.2 as nat) == channels(c),
        r.0 <= 255 && r.1 <= 255 && r.2 <= 255,
{
    match c {
        TermColor::Rgb(r, g, b) => (r as u32, g as u32, b as u32),
        TermColor::White => (255, 255, 255),
        _ => (0, 0, 0),
    }
}

fn blend_channel(bgc: u32, acc: u32, t: u32) -> (r: u8)
    requires
        bgc <= 255,
        acc <= 255,
        t <= 255,
    ensures
        r as int == blend(bgc as int, acc as int, t as int),
{
    proof {
        assert(bgc * (255 - t) + acc * t <= 255 * 255) by (nonlinear_arith)
            requires
                bgc <= 255,
                acc <= 255,
                t <= 255,
        ;
    }
    let v: u32 = (bgc * (255 - t) + acc * t) / 255;
    v as u8
}

/// Map the luminance of `color` onto the theme's background-to-accent
/// gradient (the logo's themed palette).
pub fn tint(color: TermColor, bg_primary: TermColor, fg_accent: TermColor) -> (r: TermColor)
    ensures
        r == tint_spec(color, bg_primary, fg_accent),
{
    let c = channels_of(color);
    let t: u32 = (54 * c.0 + 183 * c.1 + 19 * c.2) / 256;
    let b = channels_of(bg_primary);
    let a = channels_of(fg_accent);
    TermColor::Rgb(blend_channel(b.0, a.0, t), blend_channel(b.1, a.1, t), blend_channel(b.2, a.2, t))
}

/// A color tinted if present.
pub open spec fn tint_opt(c: Option<TermColor>, bg_primary: TermColor, fg_accent: TermColor) -> Option<TermColor> {
    match c {
        Some(x) => Some(tint_spec(x, bg_primary, fg_accent)),
        None => None,
    }
}

/// A span list with both colors of every span tinted.
pub open spec fn tint_line(l: Seq<SpanView<TermColor>>, bg_primary: TermColor, fg_accent: TermColor) -> Seq<
    SpanView<TermColor>,
> {
    l.map_values(|s: SpanView<TermColor>| (s.0, tint_opt(s.1, bg_primary, fg_accent), tint_opt(s.2, bg_primary, fg_accent)))
}

fn tint_option(c: Option<TermColor>, bg_primary: TermColor, fg_accent: TermColor) -> (r: Option<TermColor>)
    ensures
        r == tint_opt(c, bg_primary, fg_accent),
{
    match c {
        Some(x) => Some(tint(x, bg_primary, fg_accent)),
        None => None,
    }
}

/// The logo in a theme's palette: parsed with black as black, then every
/// foreground and background tinted onto the background-to-accent gradient.
pub fn themed(raw: &str, bg_primary: TermColor, fg_accent: TermColor) -> (r: Vec<Vec<StyledSpan<TermColor>>>)
    ensures
        lines_view(r@) == logo_lines_spec(crate::strings::lines_acc(raw@, Seq::<char>::empty()), TermColor::Rgb(0, 0, 0)).map_values(
            |l: Seq<SpanView<TermColor>>| tint_line(l, bg_primary, fg_accent),
        ),
{
    let lines = original(raw, TermColor::Rgb(0, 0, 0));
    let ghost src = lines_view(lines@);
    let mut out: Vec<Vec<StyledSpan<TermColor>>> = Vec::new();
    let mut i: usize = 0;
    while i < lines.len()
        invariant
            i <= lines@.len(),
            src == lines_view(lines@),
            lines_view(out@) =~= src.take(i as int).map_values(
                |l: Seq<SpanView<TermColor>>| tint_line(l, bg_primary, fg_accent),
            ),
        decreases lines@.len() - i,
    {
        let line = &lines[i];
        let mut tinted: Vec<StyledSpan<TermColor>> = Vec::new();
        let mut k: usize = 0;
        while k < line.len()
            invariant
                k <= line@.len(),
                spans_view(tinted@) =~= tint_line(spans_view(line@).take(k as int), bg_primary, fg_accent),
            decreases line@.len() - k,
        {
            let sp = &line[k];
            let ghost before = spans_view(tinted@);
            tinted.push(
                StyledSpan {
                    text: sp.text.clone(),
                    fg: tint_option(sp.fg, bg_primary, fg_accent),
                    bg: tint_option(sp.bg, bg_primary, fg_accent),
                },
            );
            proof {
                let sv = spans_view(line@);
                let x = (sp.text@, tint_opt(sp.fg, bg_primary, fg_accent), tint_opt(sp.bg, bg_primary, fg_accent));
                assert(spans_view(tinted@) =~= before.push(x));
                assert(sv[k as int] == (sp.text@, sp.fg, sp.bg));
                assert(sv.take(k as int + 1) =~= sv.take(k as int).push(sv[k as int]));
                assert(tint_line(sv.take(k as int + 1), bg_primary, fg_accent) =~= tint_line(
                    sv.take(k as int),
                    bg_primary,
                    fg_accent,
                ).push(x));
            }
            k = k + 1;
        }
        proof {
            assert(spans_view(line@).take(k as int) =~= spans_view(line@));
        }
        let ghost before = lines_view(out@);
        let ghost tv = spans_view(tinted@);
        out.push(tinted);
        proof {
            assert(lines_view(out@) =~= before.push(tv));
            assert(src.take(i as int + 1) =~= src.take(i as int).push(src[i as int]));
        }
        i = i + 1;
    }
    proof {
        assert(src.take(i as int) =~= src);
    }
    out
}

// ---------------------------------------------------------------------
// About-popup reader
// ---------------------------------------------------------------------

/// An 8-bit-per-channel color.
pub type Rgb8 = (u8, u8, u8);

/// A channel value clamped to a byte.
pub open spec fn clamp8(v: nat) -> u8 {
    if v > 255 {
        255
    } else {
        v as u8
    }
}

/// Colors after the About SGR parameters `p` from index `j` on (as
/// `apply_logo`, with channels clamped and no black substitution).
pub open spec fn apply_about(p: Seq<nat>, j: int, fg: Option<Rgb8>, bg: Option<Rgb8>) -> (Option<Rgb8>, Option<Rgb8>)
    decreases p.len() - j,
{
    if j < 0 || j >= p.len() {
        (fg, bg)
    } else if p[j] == 0 {
        apply_about(p, j + 1, None, None)
    } else if p[j] == 38 && j + 4 < p.len() && p[j + 1] == 2 {
        apply_about(p, j + 5, Some((clamp8(p[j + 2]), clamp8(p[j + 3]), clamp8(p[j + 4]))), bg)
    } else if p[j] == 48 && j + 4 < p.len() && p[j + 1] == 2 {
        apply_about(p, j + 5, fg, Some((clamp8(p[j + 2]), clamp8(p[j + 3]), clamp8(p[j + 4]))))
    } else {
        apply_about(p, j + 1, fg, bg)
    }
}

/// The final characters of a CSI sequence the About reader knows.
pub open spec fn is_csi_end(c: char) -> bool {
    c == 'm' || c == 'h' || c == 'l' || c == 'H' || c == 'J' || c == 'K'
}

/// Spans of the About line `cs` read from `i` on, in plain text.
pub open spec fn about_text(
    cs: Seq<char>,
    i: int,
    text: Seq<char>,
    fg: Option<Rgb8>,
    bg: Option<Rgb8>,
    out: Seq<SpanView<Rgb8>>,
) -> Seq<SpanView<Rgb8>>
    decreases cs.len() - i,
{
    if i < 0 || i >= cs.len() {
        flush(out, text, fg, bg)
    } else if cs[i] == '\x1b' && i + 1 < cs.len() && cs[i + 1] == '[' {
        about_csi(cs, i + 2, i + 2, fg, bg, flush(out, text, fg, bg))
    } else {
        about_text(cs, i + 1, text.push(cs[i]), fg, bg, out)
    }
}

/// Inside a CSI sequence whose parameters start at `start`: scan for its
/// final character; only `m` (SGR) changes colors; an unterminated
/// sequence drops the rest of the line.
pub open spec fn about_csi(
    cs: Seq<char>,
    start: int,
    k: int,
    fg: Option<Rgb8>,
    bg: Option<Rgb8>,
    out: Seq<SpanView<Rgb8>>,
) -> Seq<SpanView<Rgb8>>
    decreases cs.len() - k,
{
    if k < 0 || k >= cs.len() {
        out
    } else if is_csi_end(cs[k]) {
        let c = if cs[k] == 'm' {
            apply_about(sgr_numbers(cs.subrange(start, k), Seq::<char>::empty(), 65535), 0, fg, bg)
        } else {
            (fg, bg)
        };
        about_text(cs, k + 1, Seq::<char>::empty(), c.0, c.1, out)
    } else {
        about_csi(cs, start, k + 1, fg, bg, out)
    }
}

/// The spans of one About line.
pub open spec fn about_line_spec(line: Seq<char>) -> Seq<SpanView<Rgb8>> {
    about_text(line, 0, Seq::<char>::empty(), None, None, Seq::<SpanView<Rgb8>>::empty())
}

/// A 24-bit color from three SGR parameters, each clamped to a byte.
pub fn rgb(r: u32, g: u32, b: u32) -> (c: Rgb8)
    ensures
        c == (clamp8(r as nat), clamp8(g as nat), clamp8(b as nat)),
{
    let cr: u8 = if r > 255 { 255 } else { r as u8 };
    let cg: u8 = if g > 255 { 255 } else { g as u8 };
    let cb: u8 = if b > 255 { 255 } else { b as u8 };
    (cr, cg, cb)
}

/// Apply one SGR parameter list: `0` resets, `38;2;R;G;B` sets the
/// foreground, `48;2;R;G;B` the background; other parameters are skipped.
pub fn apply_sgr(ps: &Vec<u32>, fg: &mut Option<Rgb8>, bg: &mut Option<Rgb8>)
    ensures
        (*final(fg), *final(bg)) == apply_about(ps@.map_values(|v: u32| v as nat), 0, *old(fg), *old(bg)),
{
    let ghost p = ps@.map_values(|v: u32| v as nat);
    let mut j: usize = 0;
    while j < ps.len()
        invariant
            j <= ps@.len() + 4,
            p == ps@.map_values(|v: u32| v as nat),
            apply_about(p, j as int, *fg, *bg) == apply_about(p, 0, *old(fg), *old(bg)),
        decreases ps@.len() + 4 - j,
    {
        if ps[j] == 0 {
            *fg = None;
            *bg = None;
            j = j + 1;
        } else if ps[j] == 38 && ps.len() - j > 4 && ps[j + 1] == 2 {
            *fg = Some(rgb(ps[j + 2], ps[j + 3], ps[j + 4]));
            j = j + 5;
        } else if ps[j] == 48 && ps.len() - j > 4 && ps[j + 1] == 2 {
            *bg = Some(rgb(ps[j + 2], ps[j + 3], ps[j + 4]));
            j = j + 5;
        } else {
            j = j + 1;
        }
    }
}

/// Parse one line of the About banner into spans with 8-bit RGB colors.
pub fn parse_line_to_spans(line: &str) -> (r: Vec<StyledSpan<Rgb8>>)
    ensures
        spans_view(r@) == about_line_spec(line@),
{
    let cs = chars_of(line);
    let n = cs.len();
    let ghost total = about_line_spec(line@);
    let mut spans: Vec<StyledSpan<Rgb8>> = Vec::new();
    let mut text = empty_string();
    let mut fg: Option<Rgb8> = None;
    let mut bg: Option<Rgb8> = None;
    let mut i: usize = 0;
    proof {
        assert(spans_view(spans@) =~= Seq::<SpanView<Rgb8>>::empty());
    }
    while i < n
        invariant
            i <= n,
            n == cs@.len(),
            cs@ == line@,
            total == about_line_spec(line@),
            about_text(cs@, i as int, text@, fg, bg, spans_view(spans@)) == total,
        decreases n - i,
    {
        if cs[i] == '\x1b' && i + 1 < n && cs[i + 1] == '[' {
            flush_into(&mut spans, text, fg, bg);
            text = empty_string();
            let start = i + 2;
            let mut end = start;
            while end < n && !(cs[end] == 'm' || cs[end] == 'h' || cs[end] == 'l' || cs[end] == 'H'
                || cs[end] == 'J' || cs[end] == 'K')
                invariant
                    start <= end <= n,
                    n == cs@.len(),
                    cs@ == line@,
                    total == about_line_spec(line@),
                    text@ == Seq::<char>::empty(),
                    about_csi(cs@, start as int, end as int, fg, bg, spans_view(spans@)) == total,
                decreases n - end,
            {
                end = end + 1;
            }
            if end < n {
                if cs[end] == 'm' {
                    let ps = sgr_params(&cs, start, end, 65535);
                    apply_sgr(&ps, &mut fg, &mut bg);
                }
                i = end + 1;
            } else {
                i = n;
            }
        } else {
            push_char(&mut text, cs[i]);
            i = i + 1;
        }
    }
    flush_into(&mut spans, text, fg, bg);
    spans
}

/// The About banner as lines of spans, one per `\n`-separated line.
pub fn render_ansi(input: &str) -> (r: Vec<Vec<StyledSpan<Rgb8>>>)
    ensures
        lines_view(r@) == crate::strings::split_acc(input@, '\n', Seq::<char>::empty()).map_values(
            |l: Seq<char>| about_line_spec(l),
        ),
{
    let lines = crate::strings::split_on(input, '\n');
    let ghost ls = crate::strings::views(lines@);
    let mut out: Vec<Vec<StyledSpan<Rgb8>>> = Vec::new();
    let mut i: usize = 0;
    while i < lines.len()
        invariant
            i <= lines@.len(),
            ls == crate::strings::views(lines@),
            lines_view(out@) =~= ls.take(i as int).map_values(|l: Seq<char>| about_line_spec(l)),
        decreases lines@.len() - i,
    {
        let spans = parse_line_to_spans(lines[i].as_str());
        let ghost before = lines_view(out@);
        let ghost sv = spans_view(spans@);
        out.push(spans);
        proof {
            assert(lines_view(out@) =~= before.push(sv));
            assert(ls.take(i as int + 1) =~= ls.take(i as int).push(ls[i as int]));
        }
        i = i + 1;
    }
    proof {
        assert(ls.take(i as int) =~= ls);
    }
    out
}

} // verus!
