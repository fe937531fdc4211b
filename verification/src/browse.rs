//! Browse rows: the items a Miller column lists, how each renders as a
//! label, which ones carry artwork, and the lookups the row context menu
//! makes (external search query, "Open in Library" targets).

use vstd::prelude::*;
use crate::strings::{push_char, push_str, empty_string};
use crate::text::{safe_chars, trim, sanitize};
use crate::timefmt::{dec, dec2, pad2, push_dec, push_dec2, push_pad2};

verus! {

/// Fixed pixel height of a plain text row.
pub const ROW_H_TEXT: u32 = 26;
/// Fixed pixel height of a row with an album-art thumbnail.
pub const ROW_H_ART: u32 = 132;
/// Fixed pixel height of an action-button row.
pub const ROW_H_ACTION: u32 = 34;

/// The browse categories of the left-hand category column.
#[derive(PartialEq, Eq, Structural, Clone, Copy, Debug)]
pub enum BrowseCategory {
    Library,
    Playlists,
    Genres,
    AlbumGenres,
    Folders,
}

/// The metadata of a track that the browse rows read.
#[derive(Clone, Debug)]
pub struct TrackInfo {
    pub rating_key: String,
    pub title: String,
    /// Resolved artist name ("" when unknown).
    pub artist_name: String,
    /// Resolved album name ("" when unknown).
    pub album_name: String,
    /// The artist's key (the track's grandparent), when known.
    pub artist_key: Option<String>,
    /// The album's key (the track's parent), when known.
    pub album_key: Option<String>,
}

/// One row of a Miller column.
#[derive(Clone, Debug)]
pub enum BrowseItem {
    Artist { key: String, title: String },
    Album { key: String, title: String, artist: String, year: Option<u32>, thumb: Option<String> },
    Track {
        key: String,
        title: String,
        artist_name: Option<String>,
        album_name: Option<String>,
        track_number: Option<u32>,
        duration_ms: u64,
    },
    Playlist { key: String, title: String },
    Genre { key: String, title: String },
    GenreCategory { key: String, title: String },
    AllTracks { artist_key: String, artist_name: String },
    AllArtists,
    ArtistRadio { artist_key: String, artist_name: String },
    Compilations,
    CompilationTracks { artist_key: String, artist_name: String },
}

/// One Miller column: its rows, the full tracks parallel to track rows,
/// the cursor, the multi-selected rows and whether a playlist column is
/// grouped by album.
#[derive(Clone, Debug)]
pub struct BrowseColumn {
    pub items: Vec<BrowseItem>,
    pub tracks: Vec<TrackInfo>,
    pub selected_index: usize,
    /// Rows of an active multi-selection, each once, in selection order.
    pub selected_set: Vec<usize>,
    /// The row shift-clicks extend the multi-selection from.
    pub selection_anchor: Option<usize>,
    pub grouped_by_album: bool,
}

/// Where "Open in Library" navigates: an artist, and optionally one of
/// its albums.
#[derive(Clone, Debug)]
pub struct LibraryTarget {
    pub artist_key: String,
    pub artist_name: String,
    pub album_key: Option<String>,
    pub album_title: Option<String>,
}

/// Display form of user-sourced text in a row: made display-safe, then trimmed.
pub open spec fn san(s: Seq<char>) -> Seq<char> {
    trim(safe_chars(s))
}

/// Rows rendered as action buttons rather than drill targets.
pub open spec fn is_action_spec(item: BrowseItem) -> bool {
    item is ArtistRadio
}

/// Rows that show an album-art thumbnail when art is on.
pub open spec fn has_art_spec(item: BrowseItem) -> bool {
    item is Album || item is Playlist || item is CompilationTracks || item is AllTracks
}

/// Row height in pixels for `item`.
pub open spec fn row_height_spec(item: BrowseItem, show_art: bool) -> u32 {
    if is_action_spec(item) {
        ROW_H_ACTION
    } else if show_art && has_art_spec(item) {
        ROW_H_ART
    } else {
        ROW_H_TEXT
    }
}

/// The artwork cache key of a row.
pub open spec fn art_key_spec(item: BrowseItem) -> Option<Seq<char>> {
    match item {
        BrowseItem::Album { key, .. } => Some(key@),
        BrowseItem::Playlist { key, .. } => Some(key@),
        BrowseItem::CompilationTracks { artist_key, .. } => Some(artist_key@),
        BrowseItem::AllTracks { artist_key, .. } => Some(artist_key@),
        _ => None,
    }
}

/// The thumbnail path of a row (albums only).
pub open spec fn art_thumb_path_spec(item: BrowseItem) -> Option<Seq<char>> {
    match item {
        BrowseItem::Album { thumb, .. } => match thumb {
            Some(t) => Some(t@),
            None => None,
        },
        _ => None,
    }
}

/// Label of an action row.
pub open spec fn action_label_spec(item: BrowseItem) -> Seq<char> {
    match item {
        BrowseItem::ArtistRadio { artist_name, .. } => "Artist Radio - "@ + san(artist_name@),
        BrowseItem::Compilations => "Compilations"@,
        BrowseItem::CompilationTracks { artist_name, .. } => "Compilation Tracks - "@ + san(
            artist_name@,
        ),
        _ => Seq::<char>::empty(),
    }
}

/// Whether a track row shows its artist (and then no track number).
pub open spec fn shows_artist(show_track_artist: bool, artist_name: Option<String>) -> bool {
    show_track_artist && artist_name is Some && artist_name->0@.len() > 0
}

/// Label of a track row: optional `NN. ` number, optional `Artist - `,
/// the title, two spaces, then the length as `{m:>2}:{s:02}`.
pub open spec fn track_label_spec(
    title: String,
    artist_name: Option<String>,
    track_number: Option<u32>,
    duration_ms: u64,
    show_track_artist: bool,
) -> Seq<char> {
    let with_artist = shows_artist(show_track_artist, artist_name);
    let n = if !with_artist && track_number is Some {
        dec2(track_number->0 as nat) + ". "@
    } else {
        Seq::<char>::empty()
    };
    let body = if with_artist {
        san(artist_name->0@) + " - "@ + san(title@)
    } else {
        san(title@)
    };
    let m = duration_ms as nat / 60000;
    let s = (duration_ms as nat / 1000) % 60;
    n + body + "  "@ + pad2(m) + ":"@ + dec2(s)
}

/// Label of a Miller row.
pub open spec fn label_spec(item: BrowseItem, show_track_artist: bool) -> Seq<char> {
    match item {
        BrowseItem::Artist { title, .. } => san(title@),
        BrowseItem::Album { title, artist, year, .. } => match year {
            Some(y) => san(title@) + "  ("@ + dec(y as nat) + ")  - "@ + san(artist@),
            None => san(title@) + "  - "@ + san(artist@),
        },
        BrowseItem::Track { title, artist_name, track_number, duration_ms, .. } => track_label_spec(
            title,
            artist_name,
            track_number,
            duration_ms,
            show_track_artist,
        ),
        BrowseItem::Genre { title, .. } => san(title@),
        BrowseItem::GenreCategory { title, .. } => san(title@),
        BrowseItem::Playlist { title, .. } => san(title@),
        BrowseItem::AllTracks { artist_name, .. } => "All Tracks - "@ + san(artist_name@),
        BrowseItem::AllArtists => "All Artists"@,
        BrowseItem::ArtistRadio { artist_name, .. } => "Artist Radio - "@ + san(artist_name@),
        BrowseItem::Compilations => "Compilations"@,
        BrowseItem::CompilationTracks { artist_name, .. } => "Compilation Tracks - "@ + san(
            artist_name@,
        ),
    }
}

/// `a - b`.
pub open spec fn dash_join(a: Seq<char>, b: Seq<char>) -> Seq<char> {
    a + " - "@ + b
}

/// Query for an external music-service search of a row.
pub open spec fn search_query_spec(item: BrowseItem, tracks: Seq<TrackInfo>, item_index: int) -> Option<
    Seq<char>,
> {
    match item {
        BrowseItem::Track { title, artist_name, album_name, .. } => {
            if 0 <= item_index < tracks.len() && tracks[item_index].artist_name@.len() > 0
                && tracks[item_index].album_name@.len() > 0 {
                Some(dash_join(tracks[item_index].artist_name@, tracks[item_index].album_name@))
            } else if artist_name is Some && album_name is Some && artist_name->0@.len() > 0
                && album_name->0@.len() > 0 {
                Some(dash_join(artist_name->0@, album_name->0@))
            } else {
                Some(title@)
            }
        },
        BrowseItem::Album { title, artist, .. } => {
            if artist@.len() > 0 {
                Some(dash_join(artist@, title@))
            } else {
                Some(title@)
            }
        },
        BrowseItem::Artist { title, .. } => Some(title@),
        BrowseItem::Playlist { title, .. } => Some(title@),
        BrowseItem::AllTracks { artist_name, .. } => {
            if artist_name@.len() > 0 {
                Some(artist_name@)
            } else {
                None
            }
        },
        _ => None,
    }
}

/// External searches look for names, never for the library's internal
/// keys: a playlist row searches for the playlist's title and an artist
/// row for the artist's name; an album row for "artist - album" (the
/// title alone without an artist); rows of genres and other groupings
/// offer no search.
pub proof fn lemma_search_uses_names(item: BrowseItem, tracks: Seq<TrackInfo>, i: int)
    ensures
        item matches BrowseItem::Playlist { title, .. } ==> search_query_spec(item, tracks, i) == Some(title@),
        item matches BrowseItem::Artist { title, .. } ==> search_query_spec(item, tracks, i) == Some(title@),
        item matches BrowseItem::Album { title, artist, .. } ==> search_query_spec(item, tracks, i) == Some(
            if artist@.len() > 0 {
                artist@ + " - "@ + title@
            } else {
                title@
            },
        ),
        (item is Genre || item is GenreCategory || item is AllArtists || item is Compilations
            || item is CompilationTracks || item is ArtistRadio) ==> search_query_spec(item, tracks, i) is None,
{
}

/// Rows are labelled by their names: an artist, genre, genre-category or
/// playlist row shows its title made display-safe and trimmed, whatever
/// its key; an album row starts with its title and ends with its
/// artist's name.
pub proof fn lemma_rows_show_their_names(item: BrowseItem, show_track_artist: bool)
    ensures
        item matches BrowseItem::Artist { title, .. } ==> label_spec(item, show_track_artist) == trim(
            safe_chars(title@),
        ),
        item matches BrowseItem::Genre { title, .. } ==> label_spec(item, show_track_artist) == trim(
            safe_chars(title@),
        ),
        item matches BrowseItem::GenreCategory { title, .. } ==> label_spec(item, show_track_artist) == trim(
            safe_chars(title@),
        ),
        item matches BrowseItem::Playlist { title, .. } ==> label_spec(item, show_track_artist) == trim(
            safe_chars(title@),
        ),
        item matches BrowseItem::Album { title, artist, .. } ==> trim(safe_chars(title@)).is_prefix_of(
            label_spec(item, show_track_artist),
        ) && trim(safe_chars(artist@)).is_suffix_of(label_spec(item, show_track_artist)),
{
    if let BrowseItem::Album { title, artist, year, .. } = item {
        let l = label_spec(item, show_track_artist);
        let t = trim(safe_chars(title@));
        let a = trim(safe_chars(artist@));
        let mid = match year {
            Some(y) => "  ("@ + dec(y as nat) + ")  - "@,
            None => "  - "@,
        };
        assert(l =~= t + mid + a);
        assert(l.subrange(0, t.len() as int) =~= t);
        assert(l.subrange(l.len() - a.len(), l.len() as int) =~= a);
    }
}

/// A track row shows its own title, then two spaces and its length: the
/// text before the length ends with the title made display-safe (after
/// `Artist - ` when the artist is shown, and it is just the title without
/// artist and number), and the length's last two digits are the seconds
/// within the minute, after a colon.
pub proof fn lemma_track_row_shows_title_and_length(
    title: String,
    artist_name: Option<String>,
    track_number: Option<u32>,
    duration_ms: u64,
    show_track_artist: bool,
)
    ensures
        ({
            let l = track_label_spec(title, artist_name, track_number, duration_ms, show_track_artist);
            let n = l.len() as int;
            let m = duration_ms as nat / 60000;
            let lead = l.take(n - (pad2(m).len() + 5));
            let t = trim(safe_chars(title@));
            &&& n >= 5
            &&& l[n - 3] == ':'
            &&& crate::ansi::all_digits(l.skip(n - 2))
            &&& crate::ansi::digits_value(l.skip(n - 2)) == (duration_ms as nat / 1000) % 60
            &&& l.subrange(n - (pad2(m).len() + 5), n - (pad2(m).len() + 3)) == "  "@
            &&& t.is_suffix_of(lead)
            &&& (shows_artist(show_track_artist, artist_name) ==> lead == trim(safe_chars(artist_name->0@)) + " - "@ + t)
            &&& (!shows_artist(show_track_artist, artist_name) && track_number is None ==> lead == t)
        }),
{
    reveal_strlit("  ");
    reveal_strlit(":");
    let l = track_label_spec(title, artist_name, track_number, duration_ms, show_track_artist);
    let m = duration_ms as nat / 60000;
    let sec = (duration_ms as nat / 1000) % 60;
    crate::timefmt::lemma_dec2_reads_back(sec);
    let with_artist = shows_artist(show_track_artist, artist_name);
    let num = if !with_artist && track_number is Some {
        dec2(track_number->0 as nat) + ". "@
    } else {
        Seq::<char>::empty()
    };
    let t = trim(safe_chars(title@));
    let body = if with_artist {
        trim(safe_chars(artist_name->0@)) + " - "@ + t
    } else {
        t
    };
    let tail = "  "@ + pad2(m) + ":"@ + dec2(sec);
    assert(l =~= num + body + tail);
    let k = (num + body).len() as int;
    assert(l.take(k) =~= num + body);
    assert(l.skip(l.len() - 2) =~= dec2(sec));
    assert(l.subrange(k, k + 2) =~= "  "@);
    assert((num + body).subrange((num + body).len() - t.len(), (num + body).len() as int) =~= t);
    if !with_artist && track_number is None {
        assert(num + body =~= t);
    }
    if with_artist {
        assert(num + body =~= body);
    }
}

/// The view of an optional string.
pub open spec fn opt_view(o: Option<String>) -> Option<Seq<char>> {
    match o {
        Some(s) => Some(s@),
        None => None,
    }
}

/// Whether `t` is the "Open in Library" target of a track: its artist,
/// with the track's album key (when known) and album name.
pub open spec fn is_track_target(t: LibraryTarget, track: TrackInfo) -> bool {
    &&& track.artist_key is Some
    &&& t.artist_key@ == track.artist_key->0@
    &&& t.artist_name@ == track.artist_name@
    &&& opt_view(t.album_key) == opt_view(track.album_key)
    &&& opt_view(t.album_title) == Some(track.album_name@)
}

fn clone_opt(o: &Option<String>) -> (r: Option<String>)
    ensures
        opt_view(r) == opt_view(*o),
{
    match o {
        Some(s) => Some(s.clone()),
        None => None,
    }
}

/// Whether a row renders as an action button.
pub fn is_action_item(item: &BrowseItem) -> (r: bool)
    ensures
        r == is_action_spec(*item),
{
    match item {
        BrowseItem::ArtistRadio { .. } => true,
        _ => false,
    }
}

/// Whether a row shows an album-art thumbnail when art is on.
pub fn has_art_thumb(item: &BrowseItem) -> (r: bool)
    ensures
        r == has_art_spec(*item),
{
    match item {
        BrowseItem::Album { .. } => true,
        BrowseItem::Playlist { .. } => true,
        BrowseItem::CompilationTracks { .. } => true,
        BrowseItem::AllTracks { .. } => true,
        _ => false,
    }
}

/// Height in pixels of the row that renders for `item`.
pub fn row_height_for(item: &BrowseItem, show_art: bool) -> (r: u32)
    ensures
        r == row_height_spec(*item, show_art),
{
    if is_action_item(item) {
        ROW_H_ACTION
    } else if show_art && has_art_thumb(item) {
        ROW_H_ART
    } else {
        ROW_H_TEXT
    }
}

/// Artwork cache key of a row: the album or playlist key, or the
/// artist's key for the per-artist "All Tracks" / "Compilation Tracks" rows.
pub fn art_key_for(item: &BrowseItem) -> (r: Option<String>)
    ensures
        opt_view(r) == art_key_spec(*item),
{
    match item {
        BrowseItem::Album { key, .. } => Some(key.clone()),
        BrowseItem::Playlist { key, .. } => Some(key.clone()),
        BrowseItem::CompilationTracks { artist_key, .. } => Some(artist_key.clone()),
        BrowseItem::AllTracks { artist_key, .. } => Some(artist_key.clone()),
        _ => None,
    }
}

/// Thumbnail path of a row, known for albums only.
pub fn art_thumb_path_for(item: &BrowseItem) -> (r: Option<String>)
    ensures
        opt_view(r) == art_thumb_path_spec(*item),
{
    match item {
        BrowseItem::Album { thumb, .. } => clone_opt(thumb),
        _ => None,
    }
}

/// Label of an action-button row.
pub fn action_label_for(item: &BrowseItem) -> (r: String)
    ensures
        r@ == action_label_spec(*item),
{
    let mut out = empty_string();
    match item {
        BrowseItem::ArtistRadio { artist_name, .. } => {
            push_str(&mut out, "Artist Radio - ");
            push_str(&mut out, sanitize(artist_name.as_str()).as_str());
        },
        BrowseItem::Compilations => {
            push_str(&mut out, "Compilations");
        },
        BrowseItem::CompilationTracks { artist_name, .. } => {
            push_str(&mut out, "Compilation Tracks - ");
            push_str(&mut out, sanitize(artist_name.as_str()).as_str());
        },
        _ => {},
    }
    out
}

fn track_label(
    title: &String,
    artist_name: &Option<String>,
    track_number: &Option<u32>,
    duration_ms: u64,
    show_track_artist: bool,
) -> (r: String)
    ensures
        r@ == track_label_spec(*title, *artist_name, *track_number, duration_ms, show_track_artist),
{
    let with_artist = match artist_name {
        Some(a) => show_track_artist && !a.as_str().is_empty(),
        None => false,
    };
    let mut out = empty_string();
    if !with_artist {
        match track_number {
            Some(n) => {
                push_dec2(&mut out, *n as u64);
                push_str(&mut out, ". ");
            },
            None => {},
        }
    }
    if with_artist {
        match artist_name {
            Some(a) => {
                push_str(&mut out, sanitize(a.as_str()).as_str());
                push_str(&mut out, " - ");
            },
            None => {},
        }
    }
    push_str(&mut out, sanitize(title.as_str()).as_str());
    push_str(&mut out, "  ");
    push_pad2(&mut out, duration_ms / 60000);
    push_str(&mut out, ":");
    push_dec2(&mut out, (duration_ms / 1000) % 60);
    proof {
        assert(out@ =~= track_label_spec(
            *title,
            *artist_name,
            *track_number,
            duration_ms,
            show_track_artist,
        ));
    }
    out
}

/// Label of a Miller row. Track rows in multi-artist columns
/// (`show_track_artist`) lead with the artist and drop the track number.
pub fn label_for(item: &BrowseItem, show_track_artist: bool) -> (r: String)
    ensures
        r@ == label_spec(*item, show_track_artist),
{
    let mut out = empty_string();
    match item {
        BrowseItem::Artist { title, .. } => {
            push_str(&mut out, sanitize(title.as_str()).as_str());
        },
        BrowseItem::Album { title, artist, year, .. } => {
            push_str(&mut out, sanitize(title.as_str()).as_str());
            match year {
                Some(y) => {
                    push_str(&mut out, "  (");
                    push_dec(&mut out, *y as u64);
                    push_str(&mut out, ")  - ");
                },
                None => {
                    push_str(&mut out, "  - ");
                },
            }
            push_str(&mut out, sanitize(artist.as_str()).as_str());
        },
        BrowseItem::Track { title, artist_name, track_number, duration_ms, .. } => {
            out = track_label(title, artist_name, track_number, *duration_ms, show_track_artist);
        },
        BrowseItem::Genre { title, .. } => {
            push_str(&mut out, sanitize(title.as_str()).as_str());
        },
        BrowseItem::GenreCategory { title, .. } => {
            push_str(&mut out, sanitize(title.as_str()).as_str());
        },
        BrowseItem::Playlist { title, .. } => {
            push_str(&mut out, sanitize(title.as_str()).as_str());
        },
        BrowseItem::AllTracks { artist_name, .. } => {
            push_str(&mut out, "All Tracks - ");
            push_str(&mut out, sanitize(artist_name.as_str()).as_str());
        },
        BrowseItem::AllArtists => {
            push_str(&mut out, "All Artists");
        },
        BrowseItem::ArtistRadio { artist_name, .. } => {
            push_str(&mut out, "Artist Radio - ");
            push_str(&mut out, sanitize(artist_name.as_str()).as_str());
        },
        BrowseItem::Compilations => {
            push_str(&mut out, "Compilations");
        },
        BrowseItem::CompilationTracks { artist_name, .. } => {
            push_str(&mut out, "Compilation Tracks - ");
            push_str(&mut out, sanitize(artist_name.as_str()).as_str());
        },
    }
    out
}

fn join_dash(a: &str, b: &str) -> (r: String)
    ensures
        r@ == dash_join(a@, b@),
{
    let mut out = empty_string();
    push_str(&mut out, a);
    push_str(&mut out, " - ");
    push_str(&mut out, b);
    out
}

/// Query for an external music-service search of the right-clicked row:
/// "Artist - Album" for tracks (from the column's full track when it has
/// both names, else from the row's own fields, else the title),
/// "Artist - Title" for albums with an artist, the name for artists,
/// playlists and named "All Tracks" rows; `None` for other rows.
pub fn external_search_query_for_item(item: &BrowseItem, col: &BrowseColumn, item_index: usize) -> (r:
    Option<String>)
    ensures
        opt_view(r) == search_query_spec(*item, col.tracks@, item_index as int),
{
    match item {
        BrowseItem::Track { title, artist_name, album_name, .. } => {
            if item_index < col.tracks.len() {
                let t = &col.tracks[item_index];
                if !t.artist_name.as_str().is_empty() && !t.album_name.as_str().is_empty() {
                    return Some(join_dash(t.artist_name.as_str(), t.album_name.as_str()));
                }
            }
            match (artist_name, album_name) {
                (Some(a), Some(b)) => {
                    if !a.as_str().is_empty() && !b.as_str().is_empty() {
                        Some(join_dash(a.as_str(), b.as_str()))
                    } else {
                        Some(title.clone())
                    }
                },
                _ => Some(title.clone()),
            }
        },
        BrowseItem::Album { title, artist, .. } => {
            if !artist.as_str().is_empty() {
                Some(join_dash(artist.as_str(), title.as_str()))
            } else {
                Some(title.clone())
            }
        },
        BrowseItem::Artist { title, .. } => Some(title.clone()),
        BrowseItem::Playlist { title, .. } => Some(title.clone()),
        BrowseItem::AllTracks { artist_name, .. } => {
            if !artist_name.as_str().is_empty() {
                Some(artist_name.clone())
            } else {
                None
            }
        },
        _ => None,
    }
}

/// "Open in Library" target of a full track: `None` when the track has
/// no artist key.
pub fn open_in_library_for_track_obj(track: &TrackInfo) -> (r: Option<LibraryTarget>)
    ensures
        match r {
            Some(t) => is_track_target(t, *track),
            None => track.artist_key is None,
        },
{
    match &track.artist_key {
        Some(k) => Some(
            LibraryTarget {
                artist_key: k.clone(),
                artist_name: track.artist_name.clone(),
                album_key: clone_opt(&track.album_key),
                album_title: Some(track.album_name.clone()),
            },
        ),
        None => None,
    }
}

/// "Open in Library" target of a track row, from the column's full track
/// at `item_index`: `None` when there is no such track or when it lacks
/// its artist key or its album key.
pub fn open_in_library_for_track(col: &BrowseColumn, item_index: usize) -> (r: Option<
    LibraryTarget,
>)
    ensures
        match r {
            Some(t) => item_index < col.tracks@.len() && col.tracks@[item_index as int].album_key is Some
                && is_track_target(t, col.tracks@[item_index as int]),
            None => item_index >= col.tracks@.len() || col.tracks@[item_index as int].artist_key is None
                || col.tracks@[item_index as int].album_key is None,
        },
{
    if item_index >= col.tracks.len() {
        return None;
    }
    let track = &col.tracks[item_index];
    if track.album_key.is_none() {
        return None;
    }
    open_in_library_for_track_obj(track)
}

} // verus!
