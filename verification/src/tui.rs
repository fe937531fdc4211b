//! Glyphs and short texts of the terminal widgets: the scrollbar drawn
//! over a list's border, the decorative waveform progress bar, the list
//! position footer and the now-playing bar's status and clock.

use vstd::prelude::*;
use crate::strings::{push_str, empty_string};
use crate::timefmt::{dec, push_dec, clock_spec, format_time, fmt_ms, fmt_ms_spec, format_track_duration, track_duration_spec};
use crate::transport::{NowPlayingInfo, PlayStatus, display_width, str_width};
use crate::action::AppView;
use crate::nav::{Tab, tab_active_spec};

verus! {

/// Glyph of scrollbar row `row` for a thumb of `size` rows at `pos`.
pub open spec fn scrollbar_glyph(row: int, size: int, pos: int) -> char {
    if pos <= row && row < pos + size {
        '\u{2588}'
    } else {
        '\u{2502}'
    }
}

/// Whether a scrollbar is drawn at all: only with room for a track and
/// more items than fit.
pub open spec fn scrollbar_shown(track_height: nat, total_items: nat, visible_items: nat) -> bool {
    track_height > 0 && total_items > 0 && visible_items < total_items
}

/// The scrollbar column, top to bottom: `█` on the thumb's rows, `│` on the
/// track; `None` when no scrollbar is drawn. The thumb is `thumb_size` rows
/// starting at row `thumb_pos`.
pub fn scrollbar_column(
    track_height: usize,
    total_items: usize,
    visible_items: usize,
    thumb_size: usize,
    thumb_pos: usize,
) -> (r: Option<Vec<char>>)
    ensures
        match r {
            Some(v) => scrollbar_shown(track_height as nat, total_items as nat, visible_items as nat) && v@
                == Seq::new(track_height as nat, |i: int| scrollbar_glyph(i, thumb_size as int, thumb_pos as int)),
            None => !scrollbar_shown(track_height as nat, total_items as nat, visible_items as nat),
        },
{
    if track_height == 0 || total_items == 0 || visible_items >= total_items {
        return None;
    }
    let mut v: Vec<char> = Vec::new();
    let mut row: usize = 0;
    while row < track_height
        invariant
            row <= track_height,
            v@ =~= Seq::new(row as nat, |i: int| scrollbar_glyph(i, thumb_size as int, thumb_pos as int)),
        decreases track_height - row,
    {
        if row >= thumb_pos && row - thumb_pos < thumb_size {
            v.push('\u{2588}');
        } else {
            v.push('\u{2502}');
        }
        row = row + 1;
    }
    Some(v)
}

/// The eight block heights of the waveform bar, lowest to highest.
pub open spec fn wave_glyph(k: int) -> char {
    if k == 0 {
        '\u{2581}'
    } else if k == 1 {
        '\u{2582}'
    } else if k == 2 {
        '\u{2583}'
    } else if k == 3 {
        '\u{2584}'
    } else if k == 4 {
        '\u{2585}'
    } else if k == 5 {
        '\u{2586}'
    } else if k == 6 {
        '\u{2587}'
    } else {
        '\u{2588}'
    }
}

/// Cell `i` of the waveform bar: a block of pseudo-random height
/// `(7i + 3i²) mod 8`, and whether it lies in the played part.
pub open spec fn wave_cell(i: int, progress_pos: int) -> (char, bool) {
    (wave_glyph((i * 7 + i * i * 3) % 8), i < progress_pos)
}

/// The cells of a waveform progress bar `width` cells wide whose first
/// `progress_pos` cells are played.
pub fn waveform_cells(width: usize, progress_pos: usize) -> (r: Vec<(char, bool)>)
    requires
        width * width * 3 + width * 7 <= usize::MAX,
    ensures
        r@ == Seq::new(width as nat, |i: int| wave_cell(i, progress_pos as int)),
{
    let mut v: Vec<(char, bool)> = Vec::new();
    let mut i: usize = 0;
    while i < width
        invariant
            i <= width,
            width * width * 3 + width * 7 <= usize::MAX,
            v@ =~= Seq::new(i as nat, |k: int| wave_cell(k, progress_pos as int)),
        decreases width - i,
    {
        proof {
            assert(i * i * 3 + i * 7 <= width * width * 3 + width * 7) by (nonlinear_arith)
                requires
                    i < width,
            ;
        }
        let k = (i * 7 + i * i * 3) % 8;
        let c = if k == 0 {
            '\u{2581}'
        } else if k == 1 {
            '\u{2582}'
        } else if k == 2 {
            '\u{2583}'
        } else if k == 3 {
            '\u{2584}'
        } else if k == 4 {
            '\u{2585}'
        } else if k == 5 {
            '\u{2586}'
        } else if k == 6 {
            '\u{2587}'
        } else {
            '\u{2588}'
        };
        v.push((c, i < progress_pos));
        i = i + 1;
    }
    v
}

/// The " n / total " position footer of a terminal list, `n` counting
/// from one.
pub open spec fn footer_spec(selected: nat, total: nat) -> Seq<char> {
    " "@ + dec(selected + 1) + " / "@ + dec(total) + " "@
}

/// The position footer of a terminal list; see `footer_spec`.
pub fn position_footer(selected: usize, total: usize) -> (r: String)
    requires
        selected < usize::MAX,
    ensures
        r@ == footer_spec(selected as nat, total as nat),
{
    let mut out = empty_string();
    push_str(&mut out, " ");
    push_dec(&mut out, (selected + 1) as u64);
    push_str(&mut out, " / ");
    push_dec(&mut out, total as u64);
    push_str(&mut out, " ");
    out
}

/// The playback-status glyph of the terminal now-playing bar.
pub open spec fn status_symbol_spec(s: PlayStatus) -> Seq<char> {
    match s {
        PlayStatus::Playing => "\u{25B6}"@,
        PlayStatus::Paused => "\u{23F8}"@,
        PlayStatus::Buffering => "\u{23F3}"@,
        PlayStatus::Stopped => "\u{23F9}"@,
    }
}

/// The playback-status glyph of the terminal now-playing bar.
pub fn status_symbol(s: PlayStatus) -> (r: &'static str)
    ensures
        r@ == status_symbol_spec(s),
{
    match s {
        PlayStatus::Playing => "\u{25B6}",
        PlayStatus::Paused => "\u{23F8}",
        PlayStatus::Buffering => "\u{23F3}",
        PlayStatus::Stopped => "\u{23F9}",
    }
}

/// The label of the desktop transport's play/pause button: pause while
/// playing, play otherwise, an ellipsis while buffering.
pub open spec fn play_button_spec(s: PlayStatus) -> Seq<char> {
    match s {
        PlayStatus::Playing => "||"@,
        PlayStatus::Paused => ">"@,
        PlayStatus::Stopped => ">"@,
        PlayStatus::Buffering => "..."@,
    }
}

/// The label of the desktop transport's play/pause button.
pub fn play_button_label(s: PlayStatus) -> (r: &'static str)
    ensures
        r@ == play_button_spec(s),
{
    match s {
        PlayStatus::Playing => "||",
        PlayStatus::Paused => ">",
        PlayStatus::Stopped => ">",
        PlayStatus::Buffering => "...",
    }
}

/// The two lines of track information on the desktop transport bar: the
/// title ("No track" when nothing plays), then "Artist  —  Album".
pub open spec fn desktop_track_lines_spec(track: Option<NowPlayingInfo>) -> (Seq<char>, Seq<char>) {
    match track {
        Some(t) => (t.title@, t.artist@ + "  \u{2014}  "@ + t.album@),
        None => ("No track"@, "  \u{2014}  "@),
    }
}

/// The track lines of the desktop transport bar; see
/// `desktop_track_lines_spec`.
pub fn desktop_track_lines(track: Option<&NowPlayingInfo>) -> (r: (String, String))
    ensures
        (r.0@, r.1@) == desktop_track_lines_spec(
            match track {
                Some(t) => Some(*t),
                None => None,
            },
        ),
{
    let mut second = empty_string();
    match track {
        Some(t) => {
            push_str(&mut second, t.artist.as_str());
            push_str(&mut second, "  \u{2014}  ");
            push_str(&mut second, t.album.as_str());
            (t.title.clone(), second)
        },
        None => {
            push_str(&mut second, "  \u{2014}  ");
            let mut first = empty_string();
            push_str(&mut first, "No track");
            (first, second)
        },
    }
}

/// The metadata lines of the desktop Now Playing screen: the title ("No
/// track playing" when nothing plays), the artist, "Album  Year" (either
/// part empty when unknown), and "position / length".
pub open spec fn now_playing_lines_spec(
    track: Option<NowPlayingInfo>,
    year: Option<u32>,
    position_ms: nat,
    duration_ms: nat,
) -> Seq<Seq<char>> {
    let y = match (track, year) {
        (Some(_), Some(v)) => dec(v as nat),
        _ => Seq::empty(),
    };
    match track {
        Some(t) => seq![t.title@, t.artist@, t.album@ + "  "@ + y, fmt_ms_spec(position_ms) + " / "@ + fmt_ms_spec(duration_ms)],
        None => seq!["No track playing"@, Seq::empty(), "  "@, fmt_ms_spec(position_ms) + " / "@ + fmt_ms_spec(duration_ms)],
    }
}

/// The metadata lines of the desktop Now Playing screen; see
/// `now_playing_lines_spec` (`year` is the playing track's year).
pub fn now_playing_lines(track: Option<&NowPlayingInfo>, year: Option<u32>, position_ms: u64, duration_ms: u64) -> (r:
    Vec<String>)
    ensures
        r@.map_values(|x: String| x@) == now_playing_lines_spec(
            match track {
                Some(t) => Some(*t),
                None => None,
            },
            year,
            position_ms as nat,
            duration_ms as nat,
        ),
{
    let mut clock = fmt_ms(position_ms);
    push_str(&mut clock, " / ");
    push_str(&mut clock, fmt_ms(duration_ms).as_str());
    let mut third = empty_string();
    let mut out: Vec<String> = Vec::new();
    match track {
        Some(t) => {
            push_str(&mut third, t.album.as_str());
            push_str(&mut third, "  ");
            match year {
                Some(v) => push_dec(&mut third, v as u64),
                None => {},
            }
            out.push(t.title.clone());
            out.push(t.artist.clone());
        },
        None => {
            push_str(&mut third, "  ");
            let mut first = empty_string();
            push_str(&mut first, "No track playing");
            out.push(first);
            out.push(empty_string());
        },
    }
    out.push(third);
    out.push(clock);
    proof {
        assert(out@.map_values(|x: String| x@) =~= now_playing_lines_spec(
            match track {
                Some(t) => Some(*t),
                None => None,
            },
            year,
            position_ms as nat,
            duration_ms as nat,
        ));
    }
    out
}

/// The look of a row of the terminal track table: the playing track in
/// the accent colour, else the cursor row highlighted, else plain.
#[derive(PartialEq, Eq, Structural, Clone, Copy, Debug)]
pub enum TableRowLook {
    Playing,
    Selected,
    Plain,
}

/// The cells of a terminal track-table row: `▶` and the track number for
/// the playing track (a space before the number otherwise), the title, the
/// artist and the length as `m:ss`.
pub open spec fn track_table_cells(playing: bool, number: u32, title: Seq<char>, artist: Seq<char>, duration_ms: nat) -> Seq<Seq<char>> {
    seq![
        (if playing { "\u{25B6}"@ } else { " "@ }) + dec(number as nat),
        title,
        artist,
        track_duration_spec(duration_ms),
    ]
}

/// A row of the terminal track table; see `track_table_cells`. The look
/// is `Playing` for the playing track, else `Selected` on the cursor row.
pub fn track_table_row(playing: bool, selected: bool, number: u32, title: &str, artist: &str, duration_ms: u64) -> (r: (
    Vec<String>,
    TableRowLook,
))
    ensures
        r.0@.map_values(|x: String| x@) == track_table_cells(playing, number, title@, artist@, duration_ms as nat),
        r.1 == (if playing {
            TableRowLook::Playing
        } else if selected {
            TableRowLook::Selected
        } else {
            TableRowLook::Plain
        }),
{
    let mut num = empty_string();
    push_str(&mut num, if playing { "\u{25B6}" } else { " " });
    push_dec(&mut num, number as u64);
    let mut t = empty_string();
    push_str(&mut t, title);
    let mut a = empty_string();
    push_str(&mut a, artist);
    let mut cells: Vec<String> = Vec::new();
    cells.push(num);
    cells.push(t);
    cells.push(a);
    cells.push(format_track_duration(duration_ms));
    proof {
        assert(cells@.map_values(|x: String| x@) =~= track_table_cells(playing, number, title@, artist@, duration_ms as nat));
    }
    let look = if playing {
        TableRowLook::Playing
    } else if selected {
        TableRowLook::Selected
    } else {
        TableRowLook::Plain
    };
    (cells, look)
}

/// The "position / length" clock of the terminal now-playing bar.
pub fn position_clock(position_ms: u64, duration_ms: u64) -> (r: String)
    ensures
        r@ == clock_spec(position_ms as nat) + " / "@ + clock_spec(duration_ms as nat),
{
    let mut out = empty_string();
    push_str(&mut out, format_time(position_ms).as_str());
    push_str(&mut out, " / ");
    push_str(&mut out, format_time(duration_ms).as_str());
    out
}

/// A rectangle of terminal cells.
#[derive(PartialEq, Eq, Structural, Clone, Copy, Debug)]
pub struct Region {
    pub x: u16,
    pub y: u16,
    pub width: u16,
    pub height: u16,
}

/// How the transport line shares its row: the columns left for the
/// playback text (after two columns of padding, the right-hand text and a
/// space), and, once the playback text is cut to `left_width`, the spaces
/// that push the right-hand text to the end of the row.
pub open spec fn left_budget(area_width: nat, right_width: nat) -> nat {
    let available = if area_width >= 2 { area_width - 2 } else { 0 };
    if available >= right_width + 1 { (available - right_width - 1) as nat } else { 0 }
}

/// Spaces between the playback text and the right-hand text.
pub open spec fn gap_spec(area_width: nat, left_width: nat, right_width: nat) -> nat {
    let available = if area_width >= 2 { area_width - 2 } else { 0 };
    if available >= left_width + right_width { (available - left_width - right_width) as nat } else { 0 }
}

/// Columns the playback text may take on a transport row `area_width`
/// wide next to a right-hand text `right_width` wide.
pub fn transport_left_budget(area_width: u16, right_width: u16) -> (r: u16)
    requires
        right_width < u16::MAX,
    ensures
        r == left_budget(area_width as nat, right_width as nat),
{
    let available = area_width.saturating_sub(2);
    available.saturating_sub(right_width + 1)
}

/// Spaces between the (cut) playback text and the right-hand text.
pub fn transport_gap(area_width: u16, left_width: u16, right_width: u16) -> (r: u16)
    requires
        left_width + right_width <= u16::MAX,
    ensures
        r == gap_spec(area_width as nat, left_width as nat, right_width as nat),
{
    let available = area_width.saturating_sub(2);
    available.saturating_sub(left_width + right_width)
}

/// The clickable parts of the terminal transport row at `(x, y)`: the
/// play/pause glyph, the twenty-cell seek bar, the previous and next
/// glyphs, the track text up to the right-hand text, and the right-hand
/// text itself (which starts after the playback text and the gap).
#[derive(PartialEq, Eq, Structural, Clone, Copy, Debug)]
pub struct TransportRegions {
    pub play_pause: Region,
    pub seekbar: Region,
    pub prev_track: Region,
    pub next_track: Region,
    pub track_info: Region,
    pub search_icon: Region,
}

/// The regions of a transport row; the offsets follow the fixed layout
/// " ⏸ 00:00 <20-cell bar> 04:32 ⏮  ⏭  │  ".
pub open spec fn regions_spec(x: nat, y: u16, left_width: nat, gap: nat, right_width: u16) -> TransportRegions {
    let search_x = x + left_width + gap;
    let info_x = x + 45;
    TransportRegions {
        play_pause: Region { x: x as u16, y, width: 5, height: 1 },
        seekbar: Region { x: (x + 9) as u16, y, width: 20, height: 1 },
        prev_track: Region { x: (x + 35) as u16, y, width: 3, height: 1 },
        next_track: Region { x: (x + 38) as u16, y, width: 3, height: 1 },
        track_info: Region {
            x: info_x as u16,
            y,
            width: (if search_x >= info_x { search_x - info_x } else { 0 }) as u16,
            height: 1,
        },
        search_icon: Region { x: search_x as u16, y, width: right_width, height: 1 },
    }
}

/// The clickable regions of the terminal transport row; see `regions_spec`.
pub fn transport_regions(x: u16, y: u16, left_width: u16, gap: u16, right_width: u16) -> (r: TransportRegions)
    requires
        x + 45 <= u16::MAX,
        x + left_width + gap <= u16::MAX,
    ensures
        r == regions_spec(x as nat, y, left_width as nat, gap as nat, right_width),
{
    let status_w: u16 = 3;
    let pos_w: u16 = 5;
    let bar_w: u16 = 20;
    let dur_w: u16 = 5;
    let seekbar_x = x + status_w + pos_w + 1;
    let prev_x = seekbar_x + bar_w + 1 + dur_w + 1;
    let next_x = prev_x + 1 + 2;
    let separator_w: u16 = 5;
    let info_x = next_x + 1 + separator_w;
    let search_x = x + left_width + gap;
    TransportRegions {
        play_pause: Region { x, y, width: status_w + 2, height: 1 },
        seekbar: Region { x: seekbar_x, y, width: bar_w, height: 1 },
        prev_track: Region { x: prev_x - 1, y, width: 3, height: 1 },
        next_track: Region { x: next_x - 1, y, width: 3, height: 1 },
        track_info: Region { x: info_x, y, width: search_x.saturating_sub(info_x), height: 1 },
        search_icon: Region { x: search_x, y, width: right_width, height: 1 },
    }
}

/// The terminal tab strip below the transport row: the " library " and
/// " now playing " tabs after each other at the left (each highlighted
/// while its views are up), a divider between them, and the key hints
/// right-aligned; widths as `unicode-width` measures the labels.
#[derive(PartialEq, Eq, Structural, Clone, Copy, Debug)]
pub struct TabStrip {
    pub library: Region,
    pub divider: Region,
    pub now_playing: Region,
    pub hints: Region,
    pub library_active: bool,
    pub now_playing_active: bool,
}

/// The tab strip at `(x, y)`, `width` cells wide, with the label widths
/// `lib_w`, `div_w`, `np_w` and `hint_w`, while `view` is up.
pub open spec fn tab_strip_spec(x: nat, y: u16, width: nat, lib_w: nat, div_w: nat, np_w: nat, hint_w: nat, view: AppView) -> TabStrip {
    TabStrip {
        library: Region { x: x as u16, y, width: lib_w as u16, height: 1 },
        divider: Region { x: (x + lib_w) as u16, y, width: div_w as u16, height: 1 },
        now_playing: Region { x: (x + lib_w + div_w) as u16, y, width: np_w as u16, height: 1 },
        hints: Region { x: (x + (if width >= hint_w { width - hint_w } else { 0 })) as u16, y, width: hint_w as u16, height: 1 },
        library_active: tab_active_spec(Tab::Library, view),
        now_playing_active: tab_active_spec(Tab::NowPlaying, view),
    }
}

/// The tab strip for measured label widths; see `tab_strip_spec`.
pub fn tab_strip_regions(x: u16, y: u16, width: u16, view: AppView, lib_w: u16, div_w: u16, np_w: u16, hint_w: u16) -> (r: TabStrip)
    requires
        x + lib_w + div_w + np_w <= u16::MAX,
        x + width <= u16::MAX,
    ensures
        r == tab_strip_spec(x as nat, y, width as nat, lib_w as nat, div_w as nat, np_w as nat, hint_w as nat, view),
{
    TabStrip {
        library: Region { x, y, width: lib_w, height: 1 },
        divider: Region { x: x + lib_w, y, width: div_w, height: 1 },
        now_playing: Region { x: x + lib_w + div_w, y, width: np_w, height: 1 },
        hints: Region { x: x + width.saturating_sub(hint_w), y, width: hint_w, height: 1 },
        library_active: Tab::Library.is_active(view),
        now_playing_active: Tab::NowPlaying.is_active(view),
    }
}

/// The label widths of the tab strip as `unicode-width` measures them:
/// " library ", the divider, " now playing " and the key hints.
pub open spec fn strip_widths() -> (nat, nat, nat, nat) {
    (
        display_width(" library "@) as nat,
        display_width("\u{2502}"@) as nat,
        display_width(" now playing "@) as nat,
        display_width(" :  /  ?  \u{21e5}  ,  \\  | "@) as nat,
    )
}

/// The tab strip at `(x, y)` of a row `width` wide and `height` high, with
/// its labels measured: `None` when the strip has no height or the
/// measured labels do not fit the terminal's 16-bit coordinates.
pub fn tab_strip(x: u16, y: u16, width: u16, height: u16, view: AppView) -> (r: Option<TabStrip>)
    requires
        x + width <= u16::MAX,
    ensures
        ({
            let (lib_w, div_w, np_w, hint_w) = strip_widths();
            let fits = x + lib_w + div_w + np_w <= u16::MAX && hint_w <= u16::MAX;
            &&& (height == 0 || !fits) <==> r is None
            &&& r matches Some(t) ==> t == tab_strip_spec(x as nat, y, width as nat, lib_w, div_w, np_w, hint_w, view)
        }),
        display_width(" library "@) == 9,
        display_width(" now playing "@) == 13,
        r matches Some(t) ==> t.library.width == 9 && t.now_playing.width == 13,
{
    let lib_w = str_width(" library ");
    let np_w = str_width(" now playing ");
    proof {
        reveal_strlit(" library ");
        reveal_strlit(" now playing ");
        assert(lib_w == 9);
        assert(np_w == 13);
    }
    if height == 0 {
        return None;
    }
    let div_w = str_width("\u{2502}");
    let hint_w = str_width(" :  /  ?  \u{21e5}  ,  \\  | ");
    if lib_w > 65535 || div_w > 65535 || np_w > 65535 || hint_w > 65535 {
        return None;
    }
    if (x as usize) + lib_w + div_w + np_w > 65535 {
        return None;
    }
    Some(tab_strip_regions(x, y, width, view, lib_w as u16, div_w as u16, np_w as u16, hint_w as u16))
}

} // verus!
