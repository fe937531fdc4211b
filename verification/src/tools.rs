//! The queue-tool popups: the Sonic Adventure launcher (when its buttons
//! are live, and the text of its track cards), the Remix tools list and
//! the DJ modes list.

use vstd::prelude::*;
use crate::action::{Action, DjMode};
use crate::ansi::{parse_uint, unsigned_digits, digits_value, all_digits, is_ascii_digit, lemma_digits_value_step};
use crate::strings::{push_str, empty_string, chars_of};
use crate::search::strs_view;

verus! {

/// `str::parse::<usize>` of the launcher's track-count field.
pub fn parse_track_count(input: &str) -> (r: Option<usize>)
    ensures
        match r {
            Some(v) => parse_uint(input@, usize::MAX as nat) == Some(v as nat),
            None => parse_uint(input@, usize::MAX as nat) is None,
        },
{
    let tok = chars_of(input);
    let start: usize = if tok.len() > 0 && tok[0] == '+' { 1 } else { 0 };
    let ghost d = unsigned_digits(tok@);
    proof {
        assert(d =~= tok@.skip(start as int));
    }
    if start >= tok.len() {
        return None;
    }
    let cap: u128 = usize::MAX as u128 + 1;
    let mut value: u128 = 0;
    let mut i: usize = start;
    while i < tok.len()
        invariant
            start <= i <= tok@.len(),
            tok@ == input@,
            d =~= tok@.skip(start as int),
            d == unsigned_digits(tok@),
            cap == usize::MAX as u128 + 1,
            forall|k: int| start <= k < i ==> is_ascii_digit(#[trigger] tok@[k]),
            value as nat == (if digits_value(d.take(i - start)) < cap as nat {
                digits_value(d.take(i - start))
            } else {
                cap as nat
            }),
        decreases tok@.len() - i,
    {
        let c = tok[i];
        if !('0' <= c && c <= '9') {
            proof {
                assert(d[i - start] == tok@[i as int]);
                assert(!is_ascii_digit(d[i - start]));
                assert(!all_digits(d));
            }
            return None;
        }
        let dv: u128 = (c as u128) - ('0' as u128);
        proof {
            lemma_digits_value_step(d, i - start);
            assert(d[i - start] == c);
            let whole = digits_value(d.take(i - start));
            assert(whole >= cap ==> whole * 10 + dv >= cap) by (nonlinear_arith)
                requires
                    dv >= 0,
            ;
        }
        let next: u128 = value * 10 + dv;
        value = if next < cap { next } else { cap };
        i = i + 1;
    }
    proof {
        assert(d.len() == i - start);
        assert(d.take(i - start) =~= d);
        assert forall|k: int| 0 <= k < d.len() implies is_ascii_digit(#[trigger] d[k]) by {
            assert(d[k] == tok@[k + start]);
        }
    }
    if value < cap {
        Some(value as usize)
    } else {
        None
    }
}

/// Whether the launcher's "Generate" button is live: both ends picked and
/// a track count of at least five.
pub open spec fn generate_enabled_spec(has_start: bool, has_end: bool, count_input: Seq<char>) -> bool {
    has_start && has_end && (parse_uint(count_input, usize::MAX as nat) matches Some(n) && n >= 5)
}

/// Whether the launcher's "Generate" button is live; see
/// `generate_enabled_spec`.
pub fn generate_enabled(has_start: bool, has_end: bool, count_input: &str) -> (r: bool)
    ensures
        r == generate_enabled_spec(has_start, has_end, count_input@),
{
    let valid = match parse_track_count(count_input) {
        Some(n) => n >= 5,
        None => false,
    };
    has_start && has_end && valid
}

/// Whether the launcher's "Reverse" button is live: an end is picked.
pub fn reverse_enabled(has_start: bool, has_end: bool) -> (r: bool)
    ensures
        r == (has_start || has_end),
{
    has_start || has_end
}

/// The text of a launcher track card: "title — artist", or a placeholder
/// while no track is picked.
pub open spec fn card_line_spec(track: Option<(Seq<char>, Seq<char>)>) -> Seq<char> {
    match track {
        Some((t, a)) => t + "  \u{2014} "@ + a,
        None => "(not selected)"@,
    }
}

/// The text of a launcher track card; see `card_line_spec`.
pub fn card_line(track: Option<(&str, &str)>) -> (r: String)
    ensures
        r@ == card_line_spec(
            match track {
                Some((t, a)) => Some((t@, a@)),
                None => None,
            },
        ),
{
    let mut out = empty_string();
    match track {
        Some((t, a)) => {
            push_str(&mut out, t);
            push_str(&mut out, "  \u{2014} ");
            push_str(&mut out, a);
        },
        None => push_str(&mut out, "(not selected)"),
    }
    out
}

/// The label of a card's pick button.
pub fn pick_label(has_track: bool) -> (r: &'static str)
    ensures
        r@ == (if has_track {
            "Change\u{2026}"@
        } else {
            "Pick\u{2026}"@
        }),
{
    if has_track {
        "Change\u{2026}"
    } else {
        "Pick\u{2026}"
    }
}

/// What the launcher's search panel is showing.
#[derive(Clone, Debug)]
pub enum AdventureDrill {
    /// Track search: the found tracks (title, artist) once a search ran.
    Search { tracks: Option<Vec<(String, String)>>, loading: bool, query_empty: bool },
    /// The albums of an artist.
    ArtistAlbums { artist_name: String, albums: Vec<String> },
    /// The tracks (title, artist) of an album.
    AlbumTracks { album_title: String, artist_name: String, tracks: Vec<(String, String)> },
}

/// A row of the launcher's search panel.
#[derive(Clone, Debug)]
pub enum PanelRow {
    Header(String),
    Result { label: String, index: usize, selected: bool },
    Note(&'static str),
}

/// A panel row as a value.
pub enum PanelView {
    Header(Seq<char>),
    Result(Seq<char>, int, bool),
    Note(Seq<char>),
}

/// The value of panel rows.
pub open spec fn panel_view(v: Seq<PanelRow>) -> Seq<PanelView> {
    v.map_values(
        |r: PanelRow|
            match r {
                PanelRow::Header(h) => PanelView::Header(h@),
                PanelRow::Result { label, index, selected } => PanelView::Result(label@, index as int, selected),
                PanelRow::Note(n) => PanelView::Note(n@),
            },
    )
}

/// Result rows numbered from zero, the cursor's marked.
pub open spec fn numbered(labels: Seq<Seq<char>>, selected: int) -> Seq<PanelView> {
    Seq::new(labels.len(), |i: int| PanelView::Result(labels[i], i, i == selected))
}

/// "title — artist" labels.
pub open spec fn pair_labels(v: Seq<(String, String)>) -> Seq<Seq<char>> {
    v.map_values(|p: (String, String)| p.0@ + "  \u{2014} "@ + p.1@)
}

/// The rows of the launcher's search panel with the cursor on result
/// `selected`: the found tracks, or a note while there are none (what to
/// do next, or that the search is running); an artist's albums or an
/// album's tracks under a header naming them.
pub open spec fn panel_rows_spec(d: AdventureDrill, selected: int) -> Seq<PanelView> {
    match d {
        AdventureDrill::Search { tracks, loading, query_empty } => match tracks {
            Some(t) => if t@.len() == 0 {
                seq![PanelView::Note("No matching tracks."@)]
            } else {
                numbered(pair_labels(t@), selected)
            },
            None => if loading {
                seq![PanelView::Note("Searching\u{2026}"@)]
            } else if query_empty {
                seq![PanelView::Note("Type to search for a track\u{2026}"@)]
            } else {
                seq![PanelView::Note("Press Enter to search."@)]
            },
        },
        AdventureDrill::ArtistAlbums { artist_name, albums } => seq![
            PanelView::Header("\u{2014} Albums \u{2014} "@ + artist_name@ + " \u{2014}"@),
        ] + numbered(strs_view(albums@), selected),
        AdventureDrill::AlbumTracks { album_title, artist_name, tracks } => seq![
            PanelView::Header("\u{2014} Tracks \u{2014} "@ + artist_name@ + " / "@ + album_title@ + " \u{2014}"@),
        ] + numbered(pair_labels(tracks@), selected),
    }
}

fn push_numbered(out: &mut Vec<PanelRow>, labels: Vec<String>, selected: usize)
    ensures
        panel_view(final(out)@) == panel_view(old(out)@) + numbered(strs_view(labels@), selected as int),
{
    let ghost start = panel_view(out@);
    let ghost lv = strs_view(labels@);
    let mut i: usize = 0;
    while i < labels.len()
        invariant
            i <= labels@.len(),
            lv == strs_view(labels@),
            panel_view(out@) == start + numbered(lv, selected as int).take(i as int),
        decreases labels@.len() - i,
    {
        let mut label = empty_string();
        push_str(&mut label, labels[i].as_str());
        let ghost before = out@;
        out.push(PanelRow::Result { label, index: i, selected: i == selected });
        proof {
            assert(out@ == before.push(PanelRow::Result { label, index: i, selected: i == selected }));
            assert(panel_view(out@) =~= panel_view(before).push(PanelView::Result(lv[i as int], i as int, i == selected)));
            assert(numbered(lv, selected as int).take(i as int + 1) =~= numbered(lv, selected as int).take(i as int).push(
                PanelView::Result(lv[i as int], i as int, i == selected),
            ));
        }
        i = i + 1;
    }
    proof {
        assert(numbered(lv, selected as int).take(i as int) =~= numbered(lv, selected as int));
    }
}

fn pair_strings(v: &Vec<(String, String)>) -> (r: Vec<String>)
    ensures
        strs_view(r@) == pair_labels(v@),
{
    let mut out: Vec<String> = Vec::new();
    let mut i: usize = 0;
    while i < v.len()
        invariant
            i <= v@.len(),
            out@.len() == i,
            strs_view(out@) =~= pair_labels(v@).take(i as int),
        decreases v@.len() - i,
    {
        let mut s = empty_string();
        push_str(&mut s, v[i].0.as_str());
        push_str(&mut s, "  \u{2014} ");
        push_str(&mut s, v[i].1.as_str());
        let ghost before = out@;
        out.push(s);
        proof {
            assert(out@ == before.push(s));
            assert forall|k: int| 0 <= k < i + 1 implies #[trigger] strs_view(out@)[k] == pair_labels(v@).take(
                i as int + 1,
            )[k] by {
                if k < i {
                    assert(out@[k] == before[k]);
                }
            }
            assert(strs_view(out@) =~= pair_labels(v@).take(i as int + 1));
        }
        i = i + 1;
    }
    proof {
        assert(pair_labels(v@).take(i as int) =~= pair_labels(v@));
    }
    out
}

fn copy_strings(v: &Vec<String>) -> (r: Vec<String>)
    ensures
        strs_view(r@) == strs_view(v@),
{
    let mut out: Vec<String> = Vec::new();
    let mut i: usize = 0;
    while i < v.len()
        invariant
            i <= v@.len(),
            out@.len() == i,
            strs_view(out@) =~= strs_view(v@).take(i as int),
        decreases v@.len() - i,
    {
        let mut s = empty_string();
        push_str(&mut s, v[i].as_str());
        let ghost before = out@;
        out.push(s);
        proof {
            assert(out@ == before.push(s));
            assert forall|k: int| 0 <= k < i + 1 implies #[trigger] strs_view(out@)[k] == strs_view(v@).take(i as int + 1)[k] by {
                if k < i {
                    assert(out@[k] == before[k]);
                }
            }
            assert(strs_view(out@) =~= strs_view(v@).take(i as int + 1));
        }
        i = i + 1;
    }
    proof {
        assert(strs_view(v@).take(i as int) =~= strs_view(v@));
    }
    out
}

fn push_panel(out: &mut Vec<PanelRow>, r: PanelRow)
    ensures
        final(out)@ == old(out)@.push(r),
{
    out.push(r);
}

/// The rows of the launcher's search panel; see `panel_rows_spec`.
pub fn adventure_panel_rows(d: &AdventureDrill, selected: usize) -> (r: Vec<PanelRow>)
    ensures
        panel_view(r@) == panel_rows_spec(*d, selected as int),
{
    let mut out: Vec<PanelRow> = Vec::new();
    match d {
        AdventureDrill::Search { tracks, loading, query_empty } => match tracks {
            Some(t) => {
                if t.len() == 0 {
                    push_panel(&mut out, PanelRow::Note("No matching tracks."));
                } else {
                    push_numbered(&mut out, pair_strings(t), selected);
                }
            },
            None => {
                if *loading {
                    push_panel(&mut out, PanelRow::Note("Searching\u{2026}"));
                } else if *query_empty {
                    push_panel(&mut out, PanelRow::Note("Type to search for a track\u{2026}"));
                } else {
                    push_panel(&mut out, PanelRow::Note("Press Enter to search."));
                }
            },
        },
        AdventureDrill::ArtistAlbums { artist_name, albums } => {
            let mut h = empty_string();
            push_str(&mut h, "\u{2014} Albums \u{2014} ");
            push_str(&mut h, artist_name.as_str());
            push_str(&mut h, " \u{2014}");
            push_panel(&mut out, PanelRow::Header(h));
            push_numbered(&mut out, copy_strings(albums), selected);
        },
        AdventureDrill::AlbumTracks { album_title, artist_name, tracks } => {
            let mut h = empty_string();
            push_str(&mut h, "\u{2014} Tracks \u{2014} ");
            push_str(&mut h, artist_name.as_str());
            push_str(&mut h, " / ");
            push_str(&mut h, album_title.as_str());
            push_str(&mut h, " \u{2014}");
            push_panel(&mut out, PanelRow::Header(h));
            push_numbered(&mut out, pair_strings(tracks), selected);
        },
    }
    proof {
        assert(panel_view(out@) =~= panel_rows_spec(*d, selected as int));
    }
    out
}

/// An entry of the Remix tools popup.
#[derive(Clone, Debug)]
pub struct RemixEntry {
    pub label: &'static str,
    pub description: &'static str,
    pub action: Action,
}

/// The Remix tools, in order; the last is the shuffle, or its undo while
/// a shuffle can be undone.
pub open spec fn remix_entries_spec(shuffle_undo: bool) -> Seq<(Seq<char>, Seq<char>, Action)> {
    seq![
        ("Remix: Gemini"@, "Insert similar tracks between queue items"@, Action::RemixGemini),
        ("Remix: Twofer"@, "Insert same-artist tracks between queue items"@, Action::RemixTwofer),
        ("Remix: Stretch"@, "Insert sonic bridge tracks between queue items"@, Action::RemixStretch),
        (
            "Remix: Doppelganger"@,
            "Replace each track with a similar track by another artist"@,
            Action::RemixDoppelganger,
        ),
        if shuffle_undo {
            ("Undo Shuffle"@, "Restore the queue to its pre-shuffle order"@, Action::RemixUndoShuffle)
        } else {
            ("Remix: Shuffle"@, "Shuffle the current queue (undoable)"@, Action::RemixShuffle)
        },
    ]
}

/// The values of Remix entries.
pub open spec fn remix_view(v: Seq<RemixEntry>) -> Seq<(Seq<char>, Seq<char>, Action)> {
    v.map_values(|e: RemixEntry| (e.label@, e.description@, e.action))
}

/// The Remix tools popup's entries; see `remix_entries_spec`.
pub fn remix_entries(shuffle_undo: bool) -> (r: Vec<RemixEntry>)
    ensures
        remix_view(r@) == remix_entries_spec(shuffle_undo),
{
    let last = if shuffle_undo {
        RemixEntry {
            label: "Undo Shuffle",
            description: "Restore the queue to its pre-shuffle order",
            action: Action::RemixUndoShuffle,
        }
    } else {
        RemixEntry {
            label: "Remix: Shuffle",
            description: "Shuffle the current queue (undoable)",
            action: Action::RemixShuffle,
        }
    };
    let r = vec![
        RemixEntry {
            label: "Remix: Gemini",
            description: "Insert similar tracks between queue items",
            action: Action::RemixGemini,
        },
        RemixEntry {
            label: "Remix: Twofer",
            description: "Insert same-artist tracks between queue items",
            action: Action::RemixTwofer,
        },
        RemixEntry {
            label: "Remix: Stretch",
            description: "Insert sonic bridge tracks between queue items",
            action: Action::RemixStretch,
        },
        RemixEntry {
            label: "Remix: Doppelganger",
            description: "Replace each track with a similar track by another artist",
            action: Action::RemixDoppelganger,
        },
        last,
    ];
    proof {
        assert(remix_view(r@) =~= remix_entries_spec(shuffle_undo));
    }
    r
}

/// The DJ modes in the popup's order, each with whether it is the active
/// one.
pub open spec fn dj_rows_spec(active: Option<DjMode>) -> Seq<(DjMode, bool)> {
    seq![
        (DjMode::Stretch, active == Some(DjMode::Stretch)),
        (DjMode::Gemini, active == Some(DjMode::Gemini)),
        (DjMode::Freeze, active == Some(DjMode::Freeze)),
        (DjMode::Twofer, active == Some(DjMode::Twofer)),
        (DjMode::Contempo, active == Some(DjMode::Contempo)),
        (DjMode::Groupie, active == Some(DjMode::Groupie)),
    ]
}

/// The rows of the DJ modes popup; see `dj_rows_spec`.
pub fn dj_rows(active: Option<DjMode>) -> (r: Vec<(DjMode, bool)>)
    ensures
        r@ == dj_rows_spec(active),
{
    let r = vec![
        (DjMode::Stretch, active == Some(DjMode::Stretch)),
        (DjMode::Gemini, active == Some(DjMode::Gemini)),
        (DjMode::Freeze, active == Some(DjMode::Freeze)),
        (DjMode::Twofer, active == Some(DjMode::Twofer)),
        (DjMode::Contempo, active == Some(DjMode::Contempo)),
        (DjMode::Groupie, active == Some(DjMode::Groupie)),
    ];
    proof {
        assert(r@ =~= dj_rows_spec(active));
    }
    r
}

} // verus!
