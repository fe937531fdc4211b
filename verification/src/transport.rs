//! The terminal transport bar: the progress bar, the playback line on its
//! left, and truncation of that line to the columns left over, measured
//! in display columns (wide characters take two).

use vstd::prelude::*;
use crate::strings::{push_char, push_str, empty_string, chars_of};
use crate::timefmt::{clock_spec, format_time, dec, push_dec};
use unicode_width::{UnicodeWidthChar, UnicodeWidthStr};

verus! {

/// Display width in terminal columns of a string, as the `unicode-width`
/// crate measures it (emoji and script ligatures included).
pub uninterp spec fn display_width(s: Seq<char>) -> usize;

/// Column width the `unicode-width` tables give a character from U+00A0 on.
pub uninterp spec fn table_char_width(c: char) -> usize;

/// The width `unicode-width` gives one character: `None` for control
/// characters, one column for printable ASCII, the table width otherwise.
pub open spec fn char_width_spec(c: char) -> Option<usize> {
    if (c as u32) < 0x20 || (0x7F <= (c as u32) && (c as u32) < 0xA0) {
        None
    } else if (c as u32) < 0x7F {
        Some(1)
    } else {
        Some(table_char_width(c))
    }
}

/// `UnicodeWidthStr::width` of `s`: the result is the display width of `s`
/// (named, not computed here), 0 for the empty string, and one column per
/// character for a string of printable ASCII (U+0020..U+007E, which the
/// crate measures one column each, with no sequences among them).
#[verifier::external_body]
pub(crate) fn str_width(s: &str) -> (r: usize)
    ensures
        r == display_width(s@),
        s@.len() == 0 ==> r == 0,
        (forall|i: int| 0 <= i < s@.len() ==> 0x20 <= (#[trigger] s@[i] as u32) && (s@[i] as u32) <= 0x7E) ==> r
            == s@.len(),
{
    UnicodeWidthStr::width(s)
}

/// `UnicodeWidthChar::width` of `c`: `None` below U+0020 and in
/// U+007F..U+00A0, `Some(1)` for the other ASCII characters, and the
/// table width (named) from U+00A0 on.
#[verifier::external_body]
fn char_width(c: char) -> (r: Option<usize>)
    ensures
        (c as u32) < 0x20 || (0x7F <= (c as u32) && (c as u32) < 0xA0) ==> r is None,
        0x20 <= (c as u32) && (c as u32) < 0x7F ==> r == Some(1usize),
        (c as u32) >= 0xA0 ==> r == Some(table_char_width(c)),
{
    UnicodeWidthChar::width(c)
}

/// Width counted for a character: its width, or 0 for a control character.
pub open spec fn counted(w: Option<usize>) -> nat {
    match w {
        Some(x) => x as nat,
        None => 0,
    }
}

/// Characters kept while the running width `width` plus the next
/// character's stays below `max`; the first character that would reach
/// `max` is replaced by `…` and ends the result.
pub open spec fn trunc_acc(cs: Seq<char>, ws: Seq<Option<usize>>, width: nat, max: nat) -> Seq<char>
    decreases cs.len(),
{
    if cs.len() == 0 || ws.len() == 0 {
        Seq::<char>::empty()
    } else if width + counted(ws[0]) >= max {
        seq!['\u{2026}']
    } else {
        seq![cs[0]] + trunc_acc(cs.drop_first(), ws.drop_first(), width + counted(ws[0]), max)
    }
}

/// Columns taken by the first `k` characters of widths `ws`.
pub open spec fn width_sum(ws: Seq<Option<usize>>, k: int) -> nat
    decreases k,
{
    if k <= 0 || ws.len() == 0 {
        0
    } else {
        counted(ws[0]) + width_sum(ws.drop_first(), k - 1)
    }
}

/// Truncation keeps the longest prefix that stays below the budget: the
/// result is the first `k` characters, followed by `…` when characters
/// were dropped; every kept character still left the running width below
/// `max`, and the first dropped one would have reached it.
pub proof fn lemma_truncation_keeps_longest_prefix(cs: Seq<char>, ws: Seq<Option<usize>>, width: nat, max: nat) -> (k: nat)
    requires
        cs.len() == ws.len(),
    ensures
        k <= cs.len(),
        trunc_acc(cs, ws, width, max) == cs.take(k as int) + (if k < cs.len() {
            seq!['\u{2026}']
        } else {
            Seq::<char>::empty()
        }),
        forall|j: int| 0 < j <= k ==> width + #[trigger] width_sum(ws, j) < max,
        k < cs.len() ==> width + width_sum(ws, k as int) + counted(ws[k as int]) >= max,
    decreases cs.len(),
{
    if cs.len() == 0 {
        assert(cs.take(0) =~= Seq::<char>::empty());
        0
    } else if width + counted(ws[0]) >= max {
        assert(cs.take(0) + seq!['\u{2026}'] =~= seq!['\u{2026}']);
        0
    } else {
        let k1 = lemma_truncation_keeps_longest_prefix(cs.drop_first(), ws.drop_first(), width + counted(ws[0]), max);
        let k = k1 + 1;
        assert(seq![cs[0]] + cs.drop_first().take(k1 as int) =~= cs.take(k as int));
        assert forall|j: int| 0 < j <= k implies width + #[trigger] width_sum(ws, j) < max by {
            if j > 1 {
                assert(width_sum(ws, j) == counted(ws[0]) + width_sum(ws.drop_first(), j - 1));
            } else {
                assert(width_sum(ws.drop_first(), 0) == 0);
            }
        }
        if k < cs.len() {
            assert(ws.drop_first()[k1 as int] == ws[k as int]);
        }
        k
    }
}

/// `s` when its display width `total` fits in `max`; nothing when no
/// column is left (not even the ellipsis fits); else the truncation by
/// per-character widths `ws`.
pub open spec fn truncate_spec(s: Seq<char>, total: nat, ws: Seq<Option<usize>>, max: nat) -> Seq<char> {
    if total <= max {
        s
    } else if max == 0 {
        Seq::empty()
    } else {
        trunc_acc(s, ws, 0, max)
    }
}

/// Whether `r` is a prefix of `s` that fits in `max` columns by the
/// per-character widths `ws`: the first `k` characters, and `…` (one
/// column) behind them when characters were dropped.
pub open spec fn fitting_prefix(s: Seq<char>, ws: Seq<Option<usize>>, max: nat, r: Seq<char>) -> bool {
    exists|k: int|
        0 <= k <= s.len() && r == s.take(k) + (if k < s.len() {
            seq!['\u{2026}']
        } else {
            Seq::<char>::empty()
        }) && #[trigger] width_sum(ws, k) + (if k < s.len() {
            1int
        } else {
            0int
        }) <= max
}

/// A truncation fits: with at least one column to fill, the truncated
/// text (its ellipsis counted as one column) fits in `max` columns by the
/// per-character widths.
pub proof fn lemma_truncation_fits(s: Seq<char>, ws: Seq<Option<usize>>, total: nat, max: nat)
    requires
        s.len() == ws.len(),
        total > max,
        max > 0,
    ensures
        fitting_prefix(s, ws, max, truncate_spec(s, total, ws, max)),
{
    let k = lemma_truncation_keeps_longest_prefix(s, ws, 0, max);
    if k > 0 {
        assert(0 + width_sum(ws, k as int) < max);
    } else {
        assert(width_sum(ws, 0) == 0);
    }
    assert(width_sum(ws, k as int) + (if k < s.len() { 1int } else { 0int }) <= max);
}

/// Truncate `s`, whose display width is `total_width` and whose characters
/// have the widths `widths`, to `max_width` columns, ending with `…` when
/// shortened.
pub fn truncate_measured(s: &str, total_width: usize, widths: &Vec<Option<usize>>, max_width: usize) -> (r:
    String)
    requires
        widths@.len() == s@.len(),
    ensures
        r@ == truncate_spec(s@, total_width as nat, widths@, max_width as nat),
        total_width <= max_width ==> r@ == s@,
        total_width > max_width && max_width == 0 ==> r@.len() == 0,
        total_width > max_width && max_width > 0 ==> fitting_prefix(s@, widths@, max_width as nat, r@),
{
    let cs = chars_of(s);
    if total_width <= max_width {
        let mut out = empty_string();
        push_str(&mut out, s);
        proof {
            assert(out@ =~= s@);
        }
        return out;
    }
    if max_width == 0 {
        return empty_string();
    }
    proof {
        lemma_truncation_fits(s@, widths@, total_width as nat, max_width as nat);
    }
    let n = cs.len();
    let mut out = empty_string();
    let mut width: usize = 0;
    let mut i: usize = 0;
    proof {
        assert(cs@.skip(0) =~= cs@);
        assert(widths@.skip(0) =~= widths@);
    }
    while i < n
        invariant
            i <= n,
            n == cs@.len(),
            cs@ == s@,
            widths@.len() == n,
            total_width > max_width,
            max_width > 0,
            fitting_prefix(s@, widths@, max_width as nat, trunc_acc(s@, widths@, 0, max_width as nat)),
            width < max_width || (i == 0 && width == 0),
            out@ + trunc_acc(cs@.skip(i as int), widths@.skip(i as int), width as nat, max_width as nat)
                == trunc_acc(cs@, widths@, 0, max_width as nat),
        decreases n - i,
    {
        let ghost rc = cs@.skip(i as int);
        let ghost rw = widths@.skip(i as int);
        proof {
            assert(rc[0] == cs@[i as int]);
            assert(rw[0] == widths@[i as int]);
            assert(rc.drop_first() =~= cs@.skip(i as int + 1));
            assert(rw.drop_first() =~= widths@.skip(i as int + 1));
        }
        let w: usize = match widths[i] {
            Some(x) => x,
            None => 0,
        };
        if width >= max_width || w >= max_width - width {
            let ghost before = out@;
            push_char(&mut out, '\u{2026}');
            proof {
                assert(out@ =~= before + trunc_acc(rc, rw, width as nat, max_width as nat));
            }
            return out;
        }
        let ghost before = out@;
        push_char(&mut out, cs[i]);
        proof {
            assert(out@ + trunc_acc(cs@.skip(i as int + 1), widths@.skip(i as int + 1), (width + w) as nat, max_width as nat)
                =~= before + trunc_acc(rc, rw, width as nat, max_width as nat));
        }
        width = width + w;
        i = i + 1;
    }
    proof {
        assert(cs@.skip(i as int) =~= Seq::<char>::empty());
        assert(out@ + Seq::<char>::empty() =~= out@);
    }
    out
}

/// Truncate `s` to fit within `max_width` display columns, adding `…`
/// when it had to be shortened; nothing is left when no column is.
pub fn truncate_to_width(s: &str, max_width: usize) -> (r: String)
    ensures
        r@ == truncate_spec(
            s@,
            display_width(s@) as nat,
            s@.map_values(|c: char| char_width_spec(c)),
            max_width as nat,
        ),
        display_width(s@) <= max_width ==> r@ == s@,
        display_width(s@) > max_width && max_width == 0 ==> r@.len() == 0,
        display_width(s@) > max_width && max_width > 0 ==> fitting_prefix(
            s@,
            s@.map_values(|c: char| char_width_spec(c)),
            max_width as nat,
            r@,
        ),
{
    let total = str_width(s);
    let cs = chars_of(s);
    let mut widths: Vec<Option<usize>> = Vec::new();
    let mut i: usize = 0;
    while i < cs.len()
        invariant
            i <= cs@.len(),
            cs@ == s@,
            widths@ =~= cs@.take(i as int).map_values(|c: char| char_width_spec(c)),
        decreases cs@.len() - i,
    {
        widths.push(char_width(cs[i]));
        i = i + 1;
    }
    proof {
        assert(cs@.take(i as int) =~= cs@);
    }
    truncate_measured(s, total, &widths, max_width)
}

/// The glyph at cell `i` of a progress bar `width` cells wide with
/// `filled` cells done: the position marker `●` at `filled`, thick `━`
/// before it, thin `─` after.
pub open spec fn bar_char(i: int, filled: nat, width: nat) -> char {
    if i == filled && filled < width {
        '\u{25CF}'
    } else if i < filled {
        '\u{2501}'
    } else {
        '\u{2500}'
    }
}

/// A progress bar `width` cells wide with `filled` cells done.
pub fn build_progress_bar(filled: usize, width: usize) -> (r: String)
    ensures
        r@ == Seq::new(width as nat, |i: int| bar_char(i, filled as nat, width as nat)),
{
    let mut bar = empty_string();
    let mut i: usize = 0;
    while i < width
        invariant
            i <= width,
            bar@ =~= Seq::new(i as nat, |k: int| bar_char(k, filled as nat, width as nat)),
        decreases width - i,
    {
        if i == filled && filled < width {
            push_char(&mut bar, '\u{25CF}');
        } else if i < filled {
            push_char(&mut bar, '\u{2501}');
        } else {
            push_char(&mut bar, '\u{2500}');
        }
        i = i + 1;
    }
    bar
}

/// Playback state as the transport bar shows it.
#[derive(PartialEq, Eq, Structural, Clone, Copy, Debug)]
pub enum PlayStatus {
    Playing,
    Paused,
    Stopped,
    Buffering,
}

/// What the transport bar shows of the current track.
#[derive(Clone, Debug)]
pub struct NowPlayingInfo {
    pub title: String,
    /// The media file's name, used when the title is empty.
    pub file_name: Option<String>,
    pub artist: String,
    pub album: String,
}

/// The padded play/pause glyph for a status: pause while playing, play
/// when paused or stopped, a dotted circle while buffering.
pub open spec fn status_icon_spec(s: PlayStatus) -> Seq<char> {
    match s {
        PlayStatus::Playing => " \u{23F8} "@,
        PlayStatus::Paused => " \u{25B6} "@,
        PlayStatus::Stopped => " \u{25B6} "@,
        PlayStatus::Buffering => " \u{25CC} "@,
    }
}

/// The title shown for a track: its title, else its file name, else
/// "Unknown Track".
pub open spec fn shown_title(t: NowPlayingInfo) -> Seq<char> {
    if t.title@.len() > 0 {
        t.title@
    } else {
        match t.file_name {
            Some(f) => f@,
            None => "Unknown Track"@,
        }
    }
}

/// The left side of the transport bar: status glyph, position, progress
/// bar, length, the previous/next glyphs, a separator, then
/// "Title by Artist from Album" or "No track playing".
pub open spec fn left_content_spec(
    status: PlayStatus,
    position_ms: nat,
    duration_ms: nat,
    bar: Seq<char>,
    track: Option<NowPlayingInfo>,
) -> Seq<char> {
    status_icon_spec(status) + clock_spec(position_ms) + " "@ + bar + " "@ + clock_spec(duration_ms)
        + " \u{23EE}  \u{23ED}"@ + "  \u{2502}  "@ + match track {
        Some(t) => shown_title(t) + " by "@ + t.artist@ + " from "@ + t.album@,
        None => "No track playing"@,
    }
}

/// The left side of the transport bar for the given playback state, with
/// a twenty-cell progress bar `filled` cells done.
pub fn build_left_content(
    status: PlayStatus,
    position_ms: u64,
    duration_ms: u64,
    filled: usize,
    track: Option<&NowPlayingInfo>,
) -> (r: String)
    ensures
        r@ == left_content_spec(
            status,
            position_ms as nat,
            duration_ms as nat,
            Seq::new(20, |i: int| bar_char(i, filled as nat, 20)),
            match track {
                Some(t) => Some(*t),
                None => None,
            },
        ),
{
    let mut line = empty_string();
    match status {
        PlayStatus::Playing => push_str(&mut line, " \u{23F8} "),
        PlayStatus::Paused => push_str(&mut line, " \u{25B6} "),
        PlayStatus::Stopped => push_str(&mut line, " \u{25B6} "),
        PlayStatus::Buffering => push_str(&mut line, " \u{25CC} "),
    }
    push_str(&mut line, format_time(position_ms).as_str());
    push_str(&mut line, " ");
    push_str(&mut line, build_progress_bar(filled, 20).as_str());
    push_str(&mut line, " ");
    push_str(&mut line, format_time(duration_ms).as_str());
    push_str(&mut line, " \u{23EE}  \u{23ED}");
    push_str(&mut line, "  \u{2502}  ");
    match track {
        Some(t) => {
            if !t.title.as_str().is_empty() {
                push_str(&mut line, t.title.as_str());
            } else {
                match &t.file_name {
                    Some(f) => push_str(&mut line, f.as_str()),
                    None => push_str(&mut line, "Unknown Track"),
                }
            }
            push_str(&mut line, " by ");
            push_str(&mut line, t.artist.as_str());
            push_str(&mut line, " from ");
            push_str(&mut line, t.album.as_str());
        },
        None => {
            push_str(&mut line, "No track playing");
        },
    }
    proof {
        assert(line@ =~= left_content_spec(
            status,
            position_ms as nat,
            duration_ms as nat,
            Seq::new(20, |i: int| bar_char(i, filled as nat, 20)),
            match track {
                Some(t) => Some(*t),
                None => None,
            },
        ));
    }
    line
}

/// Where the live filter's search stands: how many matches are listed,
/// how many there are in all, and whether the listing stopped short.
#[derive(PartialEq, Eq, Structural, Clone, Copy, Debug)]
pub struct FilterMatches {
    pub shown: usize,
    pub total: usize,
    pub has_more: bool,
}

/// The query as typed into the filter box: `...` behind it while the
/// search runs, else the block cursor `▋` or, in the cursor's off phase,
/// a space.
pub open spec fn query_display_spec(query: Seq<char>, loading: bool, cursor_visible: bool) -> Seq<char> {
    if loading {
        query + "..."@
    } else if cursor_visible {
        query + "\u{258B}"@
    } else {
        query + " "@
    }
}

/// The match counter after the box: ` (shown/total+)` while more matches
/// remain, ` (no matches)` when none are listed, else ` (total)`; nothing
/// before the first result arrives.
pub open spec fn match_suffix_spec(m: Option<FilterMatches>) -> Seq<char> {
    match m {
        Some(r) => if r.has_more {
            " ("@ + dec(r.shown as nat) + "/"@ + dec(r.total as nat) + "+)"@
        } else if r.shown == 0 {
            " (no matches)"@
        } else {
            " ("@ + dec(r.total as nat) + ")"@
        },
        None => Seq::empty(),
    }
}

/// The filter box: a magnifier, then the shown query in brackets, padded
/// with spaces to 24 display columns (`query_width` is its width), then
/// the match counter.
pub open spec fn filter_box_spec(shown: Seq<char>, query_width: nat, suffix: Seq<char>) -> Seq<char> {
    let pad: nat = if query_width < 24 { (24 - query_width) as nat } else { 0 };
    "\u{1F50D} ["@ + shown + Seq::new(pad, |i: int| ' ') + "]"@ + suffix
}

/// The filter box shown on the transport row while the live filter is
/// open; `cursor_visible` is the blink phase of the cursor.
pub fn filter_box_text(query: &str, loading: bool, cursor_visible: bool, matches: Option<FilterMatches>) -> (r:
    String)
    ensures
        r@ == filter_box_spec(
            query_display_spec(query@, loading, cursor_visible),
            display_width(query_display_spec(query@, loading, cursor_visible)) as nat,
            match_suffix_spec(matches),
        ),
{
    let mut shown = empty_string();
    push_str(&mut shown, query);
    if loading {
        push_str(&mut shown, "...");
    } else if cursor_visible {
        push_str(&mut shown, "\u{258B}");
    } else {
        push_str(&mut shown, " ");
    }
    proof {
        assert(shown@ =~= query_display_spec(query@, loading, cursor_visible));
    }
    let width = str_width(shown.as_str());
    let mut out = empty_string();
    push_str(&mut out, "\u{1F50D} [");
    push_str(&mut out, shown.as_str());
    let ghost before = out@;
    let pad: usize = if width < 24 { 24 - width } else { 0 };
    let mut i: usize = 0;
    while i < pad
        invariant
            i <= pad,
            out@ =~= before + Seq::new(i as nat, |k: int| ' '),
        decreases pad - i,
    {
        push_char(&mut out, ' ');
        i = i + 1;
    }
    push_str(&mut out, "]");
    let ghost boxed = out@;
    match matches {
        Some(m) => {
            if m.has_more {
                push_str(&mut out, " (");
                push_dec(&mut out, m.shown as u64);
                push_str(&mut out, "/");
                push_dec(&mut out, m.total as u64);
                push_str(&mut out, "+)");
            } else if m.shown == 0 {
                push_str(&mut out, " (no matches)");
            } else {
                push_str(&mut out, " (");
                push_dec(&mut out, m.total as u64);
                push_str(&mut out, ")");
            }
        },
        None => {},
    }
    proof {
        assert(out@ =~= boxed + match_suffix_spec(matches));
        assert(out@ =~= filter_box_spec(shown@, width as nat, match_suffix_spec(matches)));
    }
    out
}

} // verus!
