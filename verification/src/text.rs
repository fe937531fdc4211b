//! Display-text hygiene for user-sourced metadata: stripping code points
//! the GUI shaper cannot draw, font substitutions, whitespace trimming,
//! Finder-style middle truncation and markdown-emphasis removal.

use vstd::prelude::*;
use crate::strings::{push_char, empty_string, chars_of, string_of};

verus! {

/// `lo <= c <= hi` on code points.
pub open spec fn cp_in(c: char, lo: u32, hi: u32) -> bool {
    lo <= (c as u32) && (c as u32) <= hi
}

/// Unicode general category Cc (C0 and C1 control characters).
pub open spec fn is_control(c: char) -> bool {
    cp_in(c, 0x00, 0x1F) || cp_in(c, 0x7F, 0x9F)
}

/// Unicode general category Cf (format characters): soft hyphen,
/// Arabic/Syriac number signs, zero-width spaces and joiners (among them
/// U+200D ZWJ), bidi marks and isolates, invisible operators, the BOM,
/// interlinear annotation marks, and the supplementary-plane format and
/// tag characters (U+E0001, U+E0020..=U+E007F).
pub open spec fn is_format(c: char) -> bool {
    ||| cp_in(c, 0x00AD, 0x00AD)
    ||| cp_in(c, 0x0600, 0x0605)
    ||| cp_in(c, 0x061C, 0x061C)
    ||| cp_in(c, 0x06DD, 0x06DD)
    ||| cp_in(c, 0x070F, 0x070F)
    ||| cp_in(c, 0x0890, 0x0891)
    ||| cp_in(c, 0x08E2, 0x08E2)
    ||| cp_in(c, 0x180E, 0x180E)
    ||| cp_in(c, 0x200B, 0x200F)
    ||| cp_in(c, 0x202A, 0x202E)
    ||| cp_in(c, 0x2060, 0x2064)
    ||| cp_in(c, 0x2066, 0x206F)
    ||| cp_in(c, 0xFEFF, 0xFEFF)
    ||| cp_in(c, 0xFFF9, 0xFFFB)
    ||| cp_in(c, 0x110BD, 0x110BD)
    ||| cp_in(c, 0x110CD, 0x110CD)
    ||| cp_in(c, 0x13430, 0x1343F)
    ||| cp_in(c, 0x1BCA0, 0x1BCA3)
    ||| cp_in(c, 0x1D173, 0x1D17A)
    ||| cp_in(c, 0xE0001, 0xE0001)
    ||| cp_in(c, 0xE0020, 0xE007F)
}

/// Private-use code points (BMP area and planes 15 and 16).
pub open spec fn is_private_use(c: char) -> bool {
    cp_in(c, 0xE000, 0xF8FF) || cp_in(c, 0xF0000, 0xFFFFD) || cp_in(c, 0x100000, 0x10FFFD)
}

/// Variation selectors (VS1..VS16 and the supplementary VS17..VS256).
pub open spec fn is_variation_selector(c: char) -> bool {
    cp_in(c, 0xFE00, 0xFE0F) || cp_in(c, 0xE0100, 0xE01EF)
}

/// Code points that derail the text shaper and are dropped from display text.
pub open spec fn is_unrenderable(c: char) -> bool {
    is_control(c) || is_format(c) || is_private_use(c) || is_variation_selector(c)
}

/// The font substitution applied to a kept code point: U+2764 HEAVY BLACK
/// HEART becomes U+2665 BLACK HEART SUIT; everything else is unchanged.
pub open spec fn substitute(c: char) -> char {
    if c == '\u{2764}' {
        '\u{2665}'
    } else {
        c
    }
}

/// Display-safe text: unrenderable code points removed, substitutions applied.
pub open spec fn safe_chars(s: Seq<char>) -> Seq<char>
    decreases s.len(),
{
    if s.len() == 0 {
        Seq::<char>::empty()
    } else {
        let rest = safe_chars(s.drop_last());
        if is_unrenderable(s.last()) {
            rest
        } else {
            rest.push(substitute(s.last()))
        }
    }
}

/// Display-safe text is clean and stable: it holds no code point that
/// derails the shaper and no heavy black heart, and making it safe again
/// changes nothing.
pub proof fn lemma_safe_text_clean(s: Seq<char>)
    ensures
        forall|i: int| 0 <= i < safe_chars(s).len() ==> !is_unrenderable(#[trigger] safe_chars(s)[i]) && safe_chars(s)[i] != '\u{2764}',
        safe_chars(safe_chars(s)) == safe_chars(s),
    decreases s.len(),
{
    if s.len() > 0 {
        let rest = s.drop_last();
        lemma_safe_text_clean(rest);
        let c = s.last();
        if !is_unrenderable(c) {
            let r = safe_chars(rest).push(substitute(c));
            assert(!is_unrenderable(substitute(c)));
            assert(r.drop_last() =~= safe_chars(rest));
            assert(safe_chars(r) == safe_chars(safe_chars(rest)).push(substitute(substitute(c))));
        }
    }
}

/// Unicode `White_Space`, the set that `str::trim` removes.
pub open spec fn is_white_space(c: char) -> bool {
    ||| cp_in(c, 0x0009, 0x000D)
    ||| cp_in(c, 0x0020, 0x0020)
    ||| cp_in(c, 0x0085, 0x0085)
    ||| cp_in(c, 0x00A0, 0x00A0)
    ||| cp_in(c, 0x1680, 0x1680)
    ||| cp_in(c, 0x2000, 0x200A)
    ||| cp_in(c, 0x2028, 0x2029)
    ||| cp_in(c, 0x202F, 0x202F)
    ||| cp_in(c, 0x205F, 0x205F)
    ||| cp_in(c, 0x3000, 0x3000)
}

/// `s` without its leading white space.
pub open spec fn trim_start(s: Seq<char>) -> Seq<char>
    decreases s.len(),
{
    if s.len() > 0 && is_white_space(s[0]) {
        trim_start(s.drop_first())
    } else {
        s
    }
}

/// `s` without its trailing white space.
pub open spec fn trim_end(s: Seq<char>) -> Seq<char>
    decreases s.len(),
{
    if s.len() > 0 && is_white_space(s.last()) {
        trim_end(s.drop_last())
    } else {
        s
    }
}

/// `s` without leading and trailing white space.
pub open spec fn trim(s: Seq<char>) -> Seq<char> {
    trim_end(trim_start(s))
}

/// Finder-style middle truncation to a budget of `max` visible characters,
/// the ellipsis counting as one; the prefix gets the extra character on
/// odd splits.
pub open spec fn middle_truncate_spec(s: Seq<char>, max: nat) -> Seq<char> {
    if s.len() <= max {
        s
    } else {
        let body: nat = if max >= 1 { (max - 1) as nat } else { 0 };
        let p: nat = (body + 1) / 2;
        let q: nat = (body - p) as nat;
        s.take(p as int) + seq!['\u{2026}'] + s.skip(s.len() - q)
    }
}

/// Markdown emphasis removal: every backtick and single `*` is dropped, a
/// `**` or `__` pair is dropped, a lone `_` is kept.
pub open spec fn strip_md(s: Seq<char>) -> Seq<char>
    decreases s.len(),
{
    if s.len() == 0 {
        Seq::<char>::empty()
    } else if s[0] == '`' {
        strip_md(s.drop_first())
    } else if s[0] == '*' && s.len() > 1 && s[1] == '*' {
        strip_md(s.subrange(2, s.len() as int))
    } else if s[0] == '*' {
        strip_md(s.drop_first())
    } else if s[0] == '_' && s.len() > 1 && s[1] == '_' {
        strip_md(s.subrange(2, s.len() as int))
    } else {
        seq![s[0]] + strip_md(s.drop_first())
    }
}

fn in_cp(u: u32, lo: u32, hi: u32) -> (r: bool)
    ensures
        r == (lo <= u && u <= hi),
{
    lo <= u && u <= hi
}

/// Whether `c` is dropped from display text.
pub fn is_unrenderable_char(c: char) -> (r: bool)
    ensures
        r == is_unrenderable(c),
{
    let u: u32 = c as u32;
    let control = u <= 0x1F || in_cp(u, 0x7F, 0x9F);
    let format = in_cp(u, 0x00AD, 0x00AD) || in_cp(u, 0x0600, 0x0605) || in_cp(u, 0x061C, 0x061C)
        || in_cp(u, 0x06DD, 0x06DD) || in_cp(u, 0x070F, 0x070F) || in_cp(u, 0x0890, 0x0891)
        || in_cp(u, 0x08E2, 0x08E2) || in_cp(u, 0x180E, 0x180E) || in_cp(u, 0x200B, 0x200F)
        || in_cp(u, 0x202A, 0x202E) || in_cp(u, 0x2060, 0x2064) || in_cp(u, 0x2066, 0x206F)
        || in_cp(u, 0xFEFF, 0xFEFF) || in_cp(u, 0xFFF9, 0xFFFB) || in_cp(u, 0x110BD, 0x110BD)
        || in_cp(u, 0x110CD, 0x110CD) || in_cp(u, 0x13430, 0x1343F) || in_cp(u, 0x1BCA0, 0x1BCA3)
        || in_cp(u, 0x1D173, 0x1D17A) || in_cp(u, 0xE0001, 0xE0001) || in_cp(u, 0xE0020, 0xE007F);
    let private_use = in_cp(u, 0xE000, 0xF8FF) || in_cp(u, 0xF0000, 0xFFFFD) || in_cp(
        u,
        0x100000,
        0x10FFFD,
    );
    let selector = in_cp(u, 0xFE00, 0xFE0F) || in_cp(u, 0xE0100, 0xE01EF);
    control || format || private_use || selector
}

/// Whether `c` is Unicode white space.
pub fn is_white_space_char(c: char) -> (r: bool)
    ensures
        r == is_white_space(c),
{
    let u: u32 = c as u32;
    in_cp(u, 0x0009, 0x000D) || u == 0x0020 || u == 0x0085 || u == 0x00A0 || u == 0x1680
        || in_cp(u, 0x2000, 0x200A) || in_cp(u, 0x2028, 0x2029) || u == 0x202F || u == 0x205F
        || u == 0x3000
}

/// The replacement glyph for `c`, if `c` only lives in fonts the GUI
/// cannot draw.
pub fn needs_substitute(c: char) -> (r: Option<char>)
    ensures
        r == (if c == '\u{2764}' { Some('\u{2665}') } else { None::<char> }),
{
    if c == '\u{2764}' {
        Some('\u{2665}')
    } else {
        None
    }
}

/// Sanitize user-facing text for the GUI: strip control, format,
/// private-use and variation-selector code points, then apply the font
/// substitutions of `needs_substitute`.
pub fn safe_text(input: &str) -> (r: String)
    ensures
        r@ == safe_chars(input@),
{
    let cs = chars_of(input);
    let mut out = empty_string();
    let mut i: usize = 0;
    while i < cs.len()
        invariant
            i <= cs@.len(),
            cs@ == input@,
            out@ == safe_chars(cs@.take(i as int)),
        decreases cs@.len() - i,
    {
        let c = cs[i];
        proof {
            assert(cs@.take(i as int + 1).drop_last() =~= cs@.take(i as int));
        }
        if !is_unrenderable_char(c) {
            match needs_substitute(c) {
                Some(rep) => push_char(&mut out, rep),
                None => push_char(&mut out, c),
            }
        }
        i = i + 1;
    }
    proof {
        assert(cs@.take(i as int) =~= cs@);
    }
    out
}

proof fn lemma_trim_start_skip(s: Seq<char>, i: int)
    requires
        0 <= i < s.len(),
        is_white_space(s[i]),
    ensures
        trim_start(s.subrange(i, s.len() as int)) == trim_start(s.subrange(i + 1, s.len() as int)),
{
    assert(s.subrange(i, s.len() as int).drop_first() =~= s.subrange(i + 1, s.len() as int));
}

proof fn lemma_trim_end_skip(s: Seq<char>, j: int)
    requires
        0 < j <= s.len(),
        is_white_space(s[j - 1]),
    ensures
        trim_end(s.subrange(0, j)) == trim_end(s.subrange(0, j - 1)),
{
    assert(s.subrange(0, j).drop_last() =~= s.subrange(0, j - 1));
}

/// The characters of `cs` without leading and trailing white space.
pub fn trim_chars(cs: &Vec<char>) -> (r: Vec<char>)
    ensures
        r@ == trim(cs@),
{
    let n = cs.len();
    let mut i: usize = 0;
    proof {
        assert(cs@.subrange(0, n as int) =~= cs@);
    }
    while i < n && is_white_space_char(cs[i])
        invariant
            i <= n,
            n == cs@.len(),
            trim_start(cs@) == trim_start(cs@.subrange(i as int, n as int)),
        decreases n - i,
    {
        proof {
            lemma_trim_start_skip(cs@, i as int);
        }
        i = i + 1;
    }
    let ghost x = cs@.subrange(i as int, n as int);
    assert(trim_start(cs@) == x);
    let mut j: usize = n;
    proof {
        assert(x.subrange(0, (j - i) as int) =~= x);
    }
    while j > i && is_white_space_char(cs[j - 1])
        invariant
            i <= j <= n,
            n == cs@.len(),
            x == cs@.subrange(i as int, n as int),
            trim_end(x) == trim_end(x.subrange(0, (j - i) as int)),
        decreases j - i,
    {
        proof {
            assert(x[(j - i) - 1] == cs@[j - 1]);
            lemma_trim_end_skip(x, (j - i) as int);
        }
        j = j - 1;
    }
    let mut r: Vec<char> = Vec::new();
    let mut k: usize = i;
    while k < j
        invariant
            i <= k <= j <= n,
            n == cs@.len(),
            r@ == cs@.subrange(i as int, k as int),
        decreases j - k,
    {
        r.push(cs[k]);
        k = k + 1;
        proof {
            assert(r@ =~= cs@.subrange(i as int, k as int));
        }
    }
    proof {
        assert(x.subrange(0, (j - i) as int) =~= cs@.subrange(i as int, j as int));
    }
    r
}

/// Display text for a Miller row: `safe_text`, then trimmed.
pub fn sanitize(s: &str) -> (r: String)
    ensures
        r@ == trim(safe_chars(s@)),
{
    let safe = safe_text(s);
    let cs = chars_of(safe.as_str());
    let t = trim_chars(&cs);
    string_of(&t)
}

/// Collapse the middle of `s` with `…` so the start and end stay visible;
/// `max_chars` is the budget of visible characters, the ellipsis included.
pub fn middle_truncate(s: &str, max_chars: usize) -> (r: String)
    ensures
        r@ == middle_truncate_spec(s@, max_chars as nat),
{
    let chars = chars_of(s);
    let n = chars.len();
    if n <= max_chars {
        return string_of(&chars);
    }
    let body: usize = if max_chars >= 1 { max_chars - 1 } else { 0 };
    let prefix_len: usize = (body + 1) / 2;
    let suffix_len: usize = body - prefix_len;
    let mut out = empty_string();
    let mut i: usize = 0;
    while i < prefix_len
        invariant
            i <= prefix_len < n,
            n == chars@.len(),
            out@ == chars@.take(i as int),
        decreases prefix_len - i,
    {
        push_char(&mut out, chars[i]);
        i = i + 1;
        proof {
            assert(out@ =~= chars@.take(i as int));
        }
    }
    push_char(&mut out, '\u{2026}');
    let start: usize = n - suffix_len;
    let mut k: usize = start;
    let ghost head = out@;
    while k < n
        invariant
            start <= k <= n,
            n == chars@.len(),
            out@ == head + chars@.subrange(start as int, k as int),
        decreases n - k,
    {
        push_char(&mut out, chars[k]);
        k = k + 1;
        proof {
            assert(out@ =~= head + chars@.subrange(start as int, k as int));
        }
    }
    proof {
        assert(chars@.subrange(start as int, n as int) =~= chars@.skip(start as int));
        assert(head =~= chars@.take(prefix_len as int) + seq!['\u{2026}']);
    }
    out
}

/// A truncated name fits its budget exactly, keeps the budget's leading
/// half of the full name and ends with the full name's last characters.
pub proof fn lemma_middle_truncate_fits(s: Seq<char>, max: nat)
    requires
        max >= 1,
    ensures
        middle_truncate_spec(s, max).len() <= max,
        s.len() <= max ==> middle_truncate_spec(s, max) == s,
        s.len() > max ==> {
            let r = middle_truncate_spec(s, max);
            let p = max as int / 2;
            &&& r.len() == max
            &&& r.take(p) == s.take(p)
            &&& r[p] == '\u{2026}'
            &&& r.skip(p + 1) == s.skip(s.len() - (max - 1 - p))
        },
{
    if s.len() > max {
        let r = middle_truncate_spec(s, max);
        let p = max as int / 2;
        let body = max - 1;
        assert((body + 1) / 2 == p);
        assert(r.take(p) =~= s.take(p));
        assert(r.skip(p + 1) =~= s.skip(s.len() - (max - 1 - p)));
    }
}

/// Drop markdown bold / italic / inline-code markers, keeping the words.
pub fn strip_md_emphasis(s: &str) -> (r: String)
    ensures
        r@ == strip_md(s@),
{
    let cs = chars_of(s);
    let n = cs.len();
    let mut out = empty_string();
    let mut i: usize = 0;
    proof {
        assert(cs@.subrange(0, n as int) =~= cs@);
    }
    while i < n
        invariant
            i <= n,
            n == cs@.len(),
            out@ + strip_md(cs@.subrange(i as int, n as int)) == strip_md(cs@),
        decreases n - i,
    {
        let ghost rest = cs@.subrange(i as int, n as int);
        let c = cs[i];
        let next_same = i + 1 < n && cs[i + 1] == c;
        proof {
            assert(rest[0] == c);
            assert(rest.drop_first() =~= cs@.subrange(i as int + 1, n as int));
            if i + 1 < n {
                assert(rest[1] == cs@[i as int + 1]);
                assert(rest.subrange(2, rest.len() as int) =~= cs@.subrange(i as int + 2, n as int));
            }
        }
        if c == '`' {
            i = i + 1;
        } else if c == '*' && next_same {
            i = i + 2;
        } else if c == '*' {
            i = i + 1;
        } else if c == '_' && next_same {
            i = i + 2;
        } else {
            let ghost before = out@;
            push_char(&mut out, c);
            i = i + 1;
            proof {
                assert(before + strip_md(rest) == before + (seq![c] + strip_md(cs@.subrange(i as int, n as int))));
                assert(out@ + strip_md(cs@.subrange(i as int, n as int)) =~= before + (seq![c] + strip_md(cs@.subrange(i as int, n as int))));
            }
        }
    }
    proof {
        assert(strip_md(cs@.subrange(n as int, n as int)) =~= Seq::<char>::empty());
        assert(out@ + Seq::<char>::empty() =~= out@);
    }
    out
}

/// `s` without trailing white space (`str::trim_end`).
pub fn trim_end_str(s: &str) -> (r: String)
    ensures
        r@ == trim_end(s@),
{
    let cs = chars_of(s);
    let n = cs.len();
    let mut j: usize = n;
    proof {
        assert(cs@.subrange(0, n as int) =~= cs@);
    }
    while j > 0 && is_white_space_char(cs[j - 1])
        invariant
            j <= n,
            n == cs@.len(),
            cs@ == s@,
            trim_end(cs@) == trim_end(cs@.subrange(0, j as int)),
        decreases j,
    {
        proof {
            lemma_trim_end_skip(cs@, j as int);
        }
        j = j - 1;
    }
    let mut out = empty_string();
    let mut k: usize = 0;
    while k < j
        invariant
            k <= j <= n,
            n == cs@.len(),
            out@ == cs@.subrange(0, k as int),
        decreases j - k,
    {
        push_char(&mut out, cs[k]);
        k = k + 1;
        proof {
            assert(out@ =~= cs@.subrange(0, k as int));
        }
    }
    out
}

} // verus!
