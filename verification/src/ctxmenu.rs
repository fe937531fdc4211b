//! Right-click menus: which rows the Miller-column, queue, track-pane and
//! folder menus offer for the clicked row, in order, and their labels.

use vstd::prelude::*;
use crate::action::SearchTarget;
use crate::browse::{BrowseCategory, BrowseColumn, BrowseItem, TrackInfo, search_query_spec, external_search_query_for_item};
use crate::miller::{BrowseState, LibraryArtist, album_artist_in, focused_items, open_in_library_for_album};
use crate::strings::{push_str, empty_string, eq_str};
use crate::timefmt::{dec, push_dec};

verus! {

/// The rows a context menu can offer (each stands for one entry of the
/// right-click menu, whose command it names).
#[derive(PartialEq, Eq, Structural, Clone, Copy, Debug)]
pub enum MenuRow {
    Sep,
    /// Play the track (or the selected tracks) alone.
    PlayTrack { plural: bool },
    /// Play from the track (or the selection) on.
    PlayTrackAndFollowing { plural: bool },
    /// Queue each of the `n` selected tracks at the end.
    AddTracksToEnd(usize),
    /// Queue the `n` selected tracks to play next.
    PlayTracksNext(usize),
    AddToEnd,
    PlayNext,
    ShowSimilarTracks,
    SonicAdventure,
    GoToNowPlaying,
    ShowArtistBio,
    OpenInLibrary,
    PlayAlbum,
    AddAlbumToEnd,
    PlayAlbumNext,
    ShowSimilarAlbums,
    ArtistRadio,
    SimilarArtists,
    RelatedArtists,
    ArtistBio,
    PlayPlaylist,
    SearchExternal(SearchTarget),
    Play,
    MoveSelectedUp(usize),
    MoveSelectedDown(usize),
    DeleteSelected(usize),
    MoveUp,
    MoveDown,
    DeleteFromQueue,
}

/// Which external-search services are switched on in Settings.
#[derive(Clone, Copy, Debug)]
pub struct ExternalSearchToggles {
    pub apple_music: bool,
    pub spotify: bool,
    pub youtube: bool,
}

/// Label of a service in "Search … for".
pub open spec fn service_name(t: SearchTarget) -> Seq<char> {
    match t {
        SearchTarget::AppleMusic => "Apple Music"@,
        SearchTarget::Spotify => "Spotify"@,
        SearchTarget::YouTube => "YouTube"@,
    }
}

/// The label of a row; `query` is the external-search query of the row.
pub open spec fn label_spec(row: MenuRow, query: Seq<char>) -> Seq<char> {
    match row {
        MenuRow::Sep => Seq::<char>::empty(),
        MenuRow::PlayTrack { plural } => if plural {
            "Play tracks"@
        } else {
            "Play track"@
        },
        MenuRow::PlayTrackAndFollowing { plural } => if plural {
            "Play tracks and following"@
        } else {
            "Play track and following"@
        },
        MenuRow::AddTracksToEnd(n) => "Add "@ + dec(n as nat) + " tracks to end of queue"@,
        MenuRow::PlayTracksNext(n) => "Play "@ + dec(n as nat) + " tracks next in queue"@,
        MenuRow::AddToEnd => "Add to end of queue"@,
        MenuRow::PlayNext => "Play next in queue"@,
        MenuRow::ShowSimilarTracks => "Show Similar Tracks"@,
        MenuRow::SonicAdventure => "Sonic Adventure\u{2026}"@,
        MenuRow::GoToNowPlaying => "Go to Now Playing"@,
        MenuRow::ShowArtistBio => "Show Artist Bio"@,
        MenuRow::OpenInLibrary => "Open in Library"@,
        MenuRow::PlayAlbum => "Play Album"@,
        MenuRow::AddAlbumToEnd => "Add album to end of queue"@,
        MenuRow::PlayAlbumNext => "Play album next in queue"@,
        MenuRow::ShowSimilarAlbums => "Show Similar Albums"@,
        MenuRow::ArtistRadio => "Artist Radio"@,
        MenuRow::SimilarArtists => "Similar Artists"@,
        MenuRow::RelatedArtists => "Related Artists"@,
        MenuRow::ArtistBio => "Artist Bio"@,
        MenuRow::PlayPlaylist => "Play Playlist"@,
        MenuRow::SearchExternal(t) => "Search "@ + service_name(t) + " for \u{201c}"@ + query + "\u{201d}"@,
        MenuRow::Play => "Play"@,
        MenuRow::MoveSelectedUp(n) => "Move "@ + dec(n as nat) + " selected up"@,
        MenuRow::MoveSelectedDown(n) => "Move "@ + dec(n as nat) + " selected down"@,
        MenuRow::DeleteSelected(n) => "Delete "@ + dec(n as nat) + " selected from queue"@,
        MenuRow::MoveUp => "Move up"@,
        MenuRow::MoveDown => "Move down"@,
        MenuRow::DeleteFromQueue => "Delete from queue"@,
    }
}

fn push_count_label(out: &mut String, head: &str, n: usize, tail: &str)
    ensures
        final(out)@ == old(out)@ + head@ + dec(n as nat) + tail@,
{
    push_str(out, head);
    push_dec(out, n as u64);
    push_str(out, tail);
}

/// The label of a context-menu row (`query` is used by external searches).
pub fn row_label(row: MenuRow, query: &str) -> (r: String)
    ensures
        r@ == label_spec(row, query@),
{
    let mut out = empty_string();
    match row {
        MenuRow::Sep => {},
        MenuRow::PlayTrack { plural } => push_str(&mut out, if plural { "Play tracks" } else { "Play track" }),
        MenuRow::PlayTrackAndFollowing { plural } => push_str(
            &mut out,
            if plural {
                "Play tracks and following"
            } else {
                "Play track and following"
            },
        ),
        MenuRow::AddTracksToEnd(n) => push_count_label(&mut out, "Add ", n, " tracks to end of queue"),
        MenuRow::PlayTracksNext(n) => push_count_label(&mut out, "Play ", n, " tracks next in queue"),
        MenuRow::AddToEnd => push_str(&mut out, "Add to end of queue"),
        MenuRow::PlayNext => push_str(&mut out, "Play next in queue"),
        MenuRow::ShowSimilarTracks => push_str(&mut out, "Show Similar Tracks"),
        MenuRow::SonicAdventure => push_str(&mut out, "Sonic Adventure\u{2026}"),
        MenuRow::GoToNowPlaying => push_str(&mut out, "Go to Now Playing"),
        MenuRow::ShowArtistBio => push_str(&mut out, "Show Artist Bio"),
        MenuRow::OpenInLibrary => push_str(&mut out, "Open in Library"),
        MenuRow::PlayAlbum => push_str(&mut out, "Play Album"),
        MenuRow::AddAlbumToEnd => push_str(&mut out, "Add album to end of queue"),
        MenuRow::PlayAlbumNext => push_str(&mut out, "Play album next in queue"),
        MenuRow::ShowSimilarAlbums => push_str(&mut out, "Show Similar Albums"),
        MenuRow::ArtistRadio => push_str(&mut out, "Artist Radio"),
        MenuRow::SimilarArtists => push_str(&mut out, "Similar Artists"),
        MenuRow::RelatedArtists => push_str(&mut out, "Related Artists"),
        MenuRow::ArtistBio => push_str(&mut out, "Artist Bio"),
        MenuRow::PlayPlaylist => push_str(&mut out, "Play Playlist"),
        MenuRow::SearchExternal(t) => {
            push_str(&mut out, "Search ");
            match t {
                SearchTarget::AppleMusic => push_str(&mut out, "Apple Music"),
                SearchTarget::Spotify => push_str(&mut out, "Spotify"),
                SearchTarget::YouTube => push_str(&mut out, "YouTube"),
            }
            push_str(&mut out, " for \u{201c}");
            push_str(&mut out, query);
            push_str(&mut out, "\u{201d}");
        },
        MenuRow::Play => push_str(&mut out, "Play"),
        MenuRow::MoveSelectedUp(n) => push_count_label(&mut out, "Move ", n, " selected up"),
        MenuRow::MoveSelectedDown(n) => push_count_label(&mut out, "Move ", n, " selected down"),
        MenuRow::DeleteSelected(n) => push_count_label(&mut out, "Delete ", n, " selected from queue"),
        MenuRow::MoveUp => push_str(&mut out, "Move up"),
        MenuRow::MoveDown => push_str(&mut out, "Move down"),
        MenuRow::DeleteFromQueue => push_str(&mut out, "Delete from queue"),
    }
    proof {
        assert(out@ =~= label_spec(row, query@));
    }
    out
}

/// The rows of the external-search block: a separator when any service is
/// on, then one row per service that is on.
pub open spec fn search_rows(t: ExternalSearchToggles) -> Seq<MenuRow> {
    (if t.apple_music || t.spotify || t.youtube {
        seq![MenuRow::Sep]
    } else {
        Seq::<MenuRow>::empty()
    }) + (if t.apple_music {
        seq![MenuRow::SearchExternal(SearchTarget::AppleMusic)]
    } else {
        Seq::<MenuRow>::empty()
    }) + (if t.spotify {
        seq![MenuRow::SearchExternal(SearchTarget::Spotify)]
    } else {
        Seq::<MenuRow>::empty()
    }) + (if t.youtube {
        seq![MenuRow::SearchExternal(SearchTarget::YouTube)]
    } else {
        Seq::<MenuRow>::empty()
    })
}

/// How many of the selected rows have a full track in the column.
pub open spec fn tracked_count(sel: Seq<usize>, tracks_len: nat) -> nat
    decreases sel.len(),
{
    if sel.len() == 0 {
        0
    } else {
        tracked_count(sel.drop_last(), tracks_len) + if (sel.last() as nat) < tracks_len {
            1nat
        } else {
            0nat
        }
    }
}

/// Whether a full track leads to an artist: it has the artist's key and a
/// non-empty artist name.
pub open spec fn has_artist(t: TrackInfo) -> bool {
    t.artist_key is Some && t.artist_name@.len() > 0
}

/// Rows of the Miller menu for a track row.
pub open spec fn track_row_rows(col: BrowseColumn, ii: int, category: BrowseCategory) -> Seq<MenuRow> {
    let multi = col.selected_set@.len() > 0 && col.selected_set@.contains(ii as usize);
    let count = tracked_count(col.selected_set@, col.tracks@.len());
    let plural = multi && count > 1;
    let has_track = 0 <= ii < col.tracks@.len();
    (seq![MenuRow::PlayTrack { plural }, MenuRow::PlayTrackAndFollowing { plural }] + (if plural {
        seq![MenuRow::AddTracksToEnd(count as usize), MenuRow::PlayTracksNext(count as usize)]
    } else {
        seq![MenuRow::AddToEnd, MenuRow::PlayNext]
    }) + seq![MenuRow::Sep, MenuRow::ShowSimilarTracks, MenuRow::SonicAdventure, MenuRow::Sep, MenuRow::GoToNowPlaying]
        + (if has_track && has_artist(col.tracks@[ii]) {
        seq![MenuRow::ShowArtistBio]
    } else {
        Seq::<MenuRow>::empty()
    }) + (if category != BrowseCategory::Library && has_track && col.tracks@[ii].artist_key is Some
        && col.tracks@[ii].album_key is Some {
        seq![MenuRow::Sep, MenuRow::OpenInLibrary]
    } else {
        Seq::<MenuRow>::empty()
    }))
}

/// Whether "Open in Library" resolves for an album row with key `key`.
pub open spec fn album_opens(s: BrowseState, artists: Seq<LibraryArtist>, key: Seq<char>) -> bool {
    let name = album_artist_in(focused_items(s), key);
    name.len() > 0 && exists|j: int| 0 <= j < artists.len() && (#[trigger] artists[j]).title@ == name
}

/// The rows of the Miller-column menu for row `ii` of column `ci`, or
/// `None` when there is no such row or the row offers nothing (genres,
/// category rows, group headers, action rows).
pub open spec fn miller_rows_spec(
    s: BrowseState,
    ci: int,
    ii: int,
    toggles: ExternalSearchToggles,
    artists: Seq<LibraryArtist>,
) -> Option<Seq<MenuRow>> {
    if !(s.nav is Some && 0 <= ci < s.nav->0.columns@.len() && 0 <= ii < s.nav->0.columns@[ci].items@.len()) {
        None
    } else {
        let col = s.nav->0.columns@[ci];
        let item = col.items@[ii];
        let tail = if search_query_spec(item, col.tracks@, ii) is Some {
            search_rows(toggles)
        } else {
            Seq::<MenuRow>::empty()
        };
        match item {
            BrowseItem::Track { .. } => Some(track_row_rows(col, ii, s.category) + tail),
            BrowseItem::Album { key, .. } => Some(
                seq![
                    MenuRow::PlayAlbum,
                    MenuRow::AddAlbumToEnd,
                    MenuRow::PlayAlbumNext,
                    MenuRow::Sep,
                    MenuRow::ShowSimilarAlbums,
                    MenuRow::SonicAdventure,
                ] + (if album_opens(s, artists, key@) {
                    seq![MenuRow::Sep, MenuRow::OpenInLibrary]
                } else {
                    Seq::<MenuRow>::empty()
                }) + tail,
            ),
            BrowseItem::Artist { .. } => Some(
                seq![
                    MenuRow::ArtistRadio,
                    MenuRow::SimilarArtists,
                    MenuRow::RelatedArtists,
                    MenuRow::Sep,
                    MenuRow::ArtistBio,
                ] + tail,
            ),
            BrowseItem::Playlist { .. } => Some(seq![MenuRow::PlayPlaylist] + tail),
            _ => None,
        }
    }
}

fn push_row(v: &mut Vec<MenuRow>, r: MenuRow)
    ensures
        final(v)@ == old(v)@ + seq![r],
{
    v.push(r);
    proof {
        assert(final(v)@ =~= old(v)@ + seq![r]);
    }
}

fn push_search_rows(v: &mut Vec<MenuRow>, t: &ExternalSearchToggles)
    ensures
        final(v)@ == old(v)@ + search_rows(*t),
{
    let ghost start = v@;
    if t.apple_music || t.spotify || t.youtube {
        push_row(v, MenuRow::Sep);
    }
    if t.apple_music {
        push_row(v, MenuRow::SearchExternal(SearchTarget::AppleMusic));
    }
    if t.spotify {
        push_row(v, MenuRow::SearchExternal(SearchTarget::Spotify));
    }
    if t.youtube {
        push_row(v, MenuRow::SearchExternal(SearchTarget::YouTube));
    }
    proof {
        assert(v@ =~= start + search_rows(*t));
    }
}

fn count_tracked(sel: &Vec<usize>, tracks_len: usize) -> (r: usize)
    ensures
        r as nat == tracked_count(sel@, tracks_len as nat),
{
    let mut n: usize = 0;
    let mut i: usize = 0;
    while i < sel.len()
        invariant
            i <= sel@.len(),
            n <= i,
            n as nat == tracked_count(sel@.take(i as int), tracks_len as nat),
        decreases sel@.len() - i,
    {
        proof {
            assert(sel@.take(i as int + 1).drop_last() =~= sel@.take(i as int));
        }
        if sel[i] < tracks_len {
            n = n + 1;
        }
        i = i + 1;
    }
    proof {
        assert(sel@.take(i as int) =~= sel@);
    }
    n
}

fn contains_index(sel: &Vec<usize>, x: usize) -> (r: bool)
    ensures
        r == sel@.contains(x),
{
    let mut i: usize = 0;
    while i < sel.len()
        invariant
            i <= sel@.len(),
            forall|k: int| 0 <= k < i ==> sel@[k] != x,
        decreases sel@.len() - i,
    {
        if sel[i] == x {
            proof {
                assert(sel@[i as int] == x);
            }
            return true;
        }
        i = i + 1;
    }
    false
}

fn track_item_rows(col: &BrowseColumn, ii: usize, category: BrowseCategory) -> (r: Vec<MenuRow>)
    ensures
        r@ == track_row_rows(*col, ii as int, category),
{
    let multi = col.selected_set.len() > 0 && contains_index(&col.selected_set, ii);
    let count = count_tracked(&col.selected_set, col.tracks.len());
    let plural = multi && count > 1;
    let mut rows: Vec<MenuRow> = Vec::new();
    push_row(&mut rows, MenuRow::PlayTrack { plural });
    push_row(&mut rows, MenuRow::PlayTrackAndFollowing { plural });
    if plural {
        push_row(&mut rows, MenuRow::AddTracksToEnd(count));
        push_row(&mut rows, MenuRow::PlayTracksNext(count));
    } else {
        push_row(&mut rows, MenuRow::AddToEnd);
        push_row(&mut rows, MenuRow::PlayNext);
    }
    push_row(&mut rows, MenuRow::Sep);
    push_row(&mut rows, MenuRow::ShowSimilarTracks);
    push_row(&mut rows, MenuRow::SonicAdventure);
    push_row(&mut rows, MenuRow::Sep);
    push_row(&mut rows, MenuRow::GoToNowPlaying);
    if ii < col.tracks.len() {
        let t = &col.tracks[ii];
        if t.artist_key.is_some() && !t.artist_name.as_str().is_empty() {
            push_row(&mut rows, MenuRow::ShowArtistBio);
        }
        if category != BrowseCategory::Library && t.artist_key.is_some() && t.album_key.is_some() {
            push_row(&mut rows, MenuRow::Sep);
            push_row(&mut rows, MenuRow::OpenInLibrary);
        }
    }
    proof {
        assert(rows@ =~= track_row_rows(*col, ii as int, category));
    }
    rows
}

fn album_item_rows(state: &BrowseState, artists: &Vec<LibraryArtist>, key: &String, title: &String) -> (r: Vec<MenuRow>)
    ensures
        r@ == seq![
            MenuRow::PlayAlbum,
            MenuRow::AddAlbumToEnd,
            MenuRow::PlayAlbumNext,
            MenuRow::Sep,
            MenuRow::ShowSimilarAlbums,
            MenuRow::SonicAdventure,
        ] + (if album_opens(*state, artists@, key@) {
            seq![MenuRow::Sep, MenuRow::OpenInLibrary]
        } else {
            Seq::<MenuRow>::empty()
        }),
{
    let mut rows: Vec<MenuRow> = Vec::new();
    push_row(&mut rows, MenuRow::PlayAlbum);
    push_row(&mut rows, MenuRow::AddAlbumToEnd);
    push_row(&mut rows, MenuRow::PlayAlbumNext);
    push_row(&mut rows, MenuRow::Sep);
    push_row(&mut rows, MenuRow::ShowSimilarAlbums);
    push_row(&mut rows, MenuRow::SonicAdventure);
    let open = open_in_library_for_album(state, artists, key.as_str(), title.as_str());
    if open.is_some() {
        push_row(&mut rows, MenuRow::Sep);
        push_row(&mut rows, MenuRow::OpenInLibrary);
    }
    proof {
        let name = album_artist_in(focused_items(*state), key@);
        if album_opens(*state, artists@, key@) {
            let j = choose|j: int| 0 <= j < artists@.len() && (#[trigger] artists@[j]).title@ == name;
            assert(artists@[j].title@ == name);
        }
    }
    rows
}

/// The rows of the right-click menu of Miller row `item_index` in column
/// `column_index`; see `miller_rows_spec`. `artists` is the library's
/// artist roster (for "Open in Library" on album rows).
pub fn miller_menu_rows(
    state: &BrowseState,
    column_index: usize,
    item_index: usize,
    toggles: &ExternalSearchToggles,
    artists: &Vec<LibraryArtist>,
) -> (r: Option<Vec<MenuRow>>)
    ensures
        match r {
            Some(v) => miller_rows_spec(*state, column_index as int, item_index as int, *toggles, artists@) == Some(v@),
            None => miller_rows_spec(*state, column_index as int, item_index as int, *toggles, artists@) is None,
        },
{
    let nav = match &state.nav {
        Some(n) => n,
        None => {
            return None;
        },
    };
    if column_index >= nav.columns.len() {
        return None;
    }
    let col = &nav.columns[column_index];
    if item_index >= col.items.len() {
        return None;
    }
    let item = &col.items[item_index];
    let query = external_search_query_for_item(item, col, item_index);
    let mut rows: Vec<MenuRow> = match item {
        BrowseItem::Track { .. } => track_item_rows(col, item_index, state.category),
        BrowseItem::Album { key, title, .. } => album_item_rows(state, artists, key, title),
        BrowseItem::Artist { .. } => vec![
            MenuRow::ArtistRadio,
            MenuRow::SimilarArtists,
            MenuRow::RelatedArtists,
            MenuRow::Sep,
            MenuRow::ArtistBio,
        ],
        BrowseItem::Playlist { .. } => vec![MenuRow::PlayPlaylist],
        _ => {
            return None;
        },
    };
    let ghost body = rows@;
    if query.is_some() {
        push_search_rows(&mut rows, toggles);
    }
    proof {
        let ghost s = *state;
        assert(s.nav->0.columns@[column_index as int] == *col);
        let ghost tail = if search_query_spec(*item, col.tracks@, item_index as int) is Some {
            search_rows(*toggles)
        } else {
            Seq::<MenuRow>::empty()
        };
        assert(rows@ =~= body + tail);
    }
    Some(rows)
}

/// The queue-menu rows that move or delete the clicked row or, when it is
/// part of a multi-selection of `n > 1` rows, the whole selection.
pub open spec fn queue_edit_rows(multi: bool, n: nat, row: nat, len: nat) -> Seq<MenuRow> {
    if multi && n > 1 {
        seq![MenuRow::MoveSelectedUp(n as usize), MenuRow::MoveSelectedDown(n as usize), MenuRow::DeleteSelected(n as usize)]
    } else {
        (if row > 0 {
            seq![MenuRow::MoveUp]
        } else {
            Seq::<MenuRow>::empty()
        }) + (if row + 1 < len {
            seq![MenuRow::MoveDown]
        } else {
            Seq::<MenuRow>::empty()
        }) + seq![MenuRow::DeleteFromQueue]
    }
}

/// The queue-menu rows about the clicked track: similar tracks, similar
/// albums (with an album), and the artist rows (with an artist).
pub open spec fn queue_track_rows(track: TrackInfo) -> Seq<MenuRow> {
    seq![MenuRow::Sep, MenuRow::ShowSimilarTracks] + (if track.album_key is Some && track.album_name@.len() > 0 {
        seq![MenuRow::ShowSimilarAlbums]
    } else {
        Seq::<MenuRow>::empty()
    }) + (if has_artist(track) {
        seq![MenuRow::RelatedArtists, MenuRow::Sep, MenuRow::ShowArtistBio, MenuRow::OpenInLibrary]
    } else {
        Seq::<MenuRow>::empty()
    })
}

/// The rows of the queue menu for row `row` of the `len`-row list playing
/// (the radio list in radio mode), whose track is `track`; `selected` are
/// the multi-selected queue rows.
pub open spec fn queue_rows_spec(
    radio_mode: bool,
    len: nat,
    row: nat,
    selected: Seq<usize>,
    track: TrackInfo,
) -> Seq<MenuRow> {
    let multi = selected.len() > 0 && selected.contains(row as usize);
    seq![MenuRow::Play] + (if !radio_mode {
        seq![MenuRow::PlayNext, MenuRow::AddToEnd]
    } else {
        Seq::<MenuRow>::empty()
    }) + seq![MenuRow::Sep] + queue_edit_rows(multi, selected.len(), row, len) + queue_track_rows(track)
}

fn edit_rows(multi: bool, n: usize, row: usize, len: usize) -> (r: Vec<MenuRow>)
    ensures
        r@ == queue_edit_rows(multi, n as nat, row as nat, len as nat),
{
    let mut rows: Vec<MenuRow> = Vec::new();
    if multi && n > 1 {
        push_row(&mut rows, MenuRow::MoveSelectedUp(n));
        push_row(&mut rows, MenuRow::MoveSelectedDown(n));
        push_row(&mut rows, MenuRow::DeleteSelected(n));
    } else {
        if row > 0 {
            push_row(&mut rows, MenuRow::MoveUp);
        }
        if row < len && len - row > 1 {
            push_row(&mut rows, MenuRow::MoveDown);
        }
        push_row(&mut rows, MenuRow::DeleteFromQueue);
    }
    proof {
        assert(rows@ =~= queue_edit_rows(multi, n as nat, row as nat, len as nat));
    }
    rows
}

fn track_rows(t: &TrackInfo) -> (r: Vec<MenuRow>)
    ensures
        r@ == queue_track_rows(*t),
{
    let mut rows: Vec<MenuRow> = Vec::new();
    push_row(&mut rows, MenuRow::Sep);
    push_row(&mut rows, MenuRow::ShowSimilarTracks);
    if t.album_key.is_some() && !t.album_name.as_str().is_empty() {
        push_row(&mut rows, MenuRow::ShowSimilarAlbums);
    }
    if t.artist_key.is_some() && !t.artist_name.as_str().is_empty() {
        push_row(&mut rows, MenuRow::RelatedArtists);
        push_row(&mut rows, MenuRow::Sep);
        push_row(&mut rows, MenuRow::ShowArtistBio);
        push_row(&mut rows, MenuRow::OpenInLibrary);
    }
    proof {
        assert(rows@ =~= queue_track_rows(*t));
    }
    rows
}

/// The rows of the right-click menu of queue row `row_index`; `None` past
/// the end of the playing list (the radio list in radio mode, else the
/// queue).
pub fn queue_menu_rows(
    radio_mode: bool,
    queue_tracks: &Vec<TrackInfo>,
    radio_tracks: &Vec<TrackInfo>,
    selected: &Vec<usize>,
    row_index: usize,
) -> (r: Option<Vec<MenuRow>>)
    ensures
        ({
            let tracks = if radio_mode {
                radio_tracks@
            } else {
                queue_tracks@
            };
            match r {
                Some(v) => row_index < tracks.len() && v@ == queue_rows_spec(
                    radio_mode,
                    tracks.len(),
                    row_index as nat,
                    selected@,
                    tracks[row_index as int],
                ),
                None => row_index >= tracks.len(),
            }
        }),
{
    let tracks = if radio_mode {
        radio_tracks
    } else {
        queue_tracks
    };
    let len = tracks.len();
    if row_index >= len {
        return None;
    }
    let t = &tracks[row_index];
    let mut rows: Vec<MenuRow> = Vec::new();
    push_row(&mut rows, MenuRow::Play);
    if !radio_mode {
        push_row(&mut rows, MenuRow::PlayNext);
        push_row(&mut rows, MenuRow::AddToEnd);
    }
    push_row(&mut rows, MenuRow::Sep);
    let ghost head = rows@;
    let multi = selected.len() > 0 && contains_index(selected, row_index);
    let mut edits = edit_rows(multi, selected.len(), row_index, len);
    rows.append(&mut edits);
    let mut about = track_rows(t);
    rows.append(&mut about);
    proof {
        assert(head =~= seq![MenuRow::Play] + (if !radio_mode {
            seq![MenuRow::PlayNext, MenuRow::AddToEnd]
        } else {
            Seq::<MenuRow>::empty()
        }) + seq![MenuRow::Sep]);
        assert(rows@ =~= queue_rows_spec(radio_mode, len as nat, row_index as nat, selected@, *t));
    }
    Some(rows)
}

/// The rows of the menu of a track shown outside any list (the track
/// pane's similar tracks).
pub open spec fn track_rows_spec(t: TrackInfo) -> Seq<MenuRow> {
    seq![
        MenuRow::PlayTrack { plural: false },
        MenuRow::PlayNext,
        MenuRow::AddToEnd,
        MenuRow::Sep,
        MenuRow::ShowSimilarTracks,
    ] + (if t.album_key is Some && t.album_name@.len() > 0 {
        seq![MenuRow::ShowSimilarAlbums]
    } else {
        Seq::<MenuRow>::empty()
    }) + (if has_artist(t) {
        seq![MenuRow::RelatedArtists]
    } else {
        Seq::<MenuRow>::empty()
    }) + seq![MenuRow::SonicAdventure] + (if has_artist(t) {
        seq![MenuRow::Sep, MenuRow::ShowArtistBio, MenuRow::OpenInLibrary]
    } else {
        Seq::<MenuRow>::empty()
    })
}

/// The rows of the right-click menu of a free-standing track row.
pub fn track_menu_rows(t: &TrackInfo) -> (r: Vec<MenuRow>)
    ensures
        r@ == track_rows_spec(*t),
{
    let mut rows: Vec<MenuRow> = Vec::new();
    push_row(&mut rows, MenuRow::PlayTrack { plural: false });
    push_row(&mut rows, MenuRow::PlayNext);
    push_row(&mut rows, MenuRow::AddToEnd);
    push_row(&mut rows, MenuRow::Sep);
    push_row(&mut rows, MenuRow::ShowSimilarTracks);
    let artist = t.artist_key.is_some() && !t.artist_name.as_str().is_empty();
    if t.album_key.is_some() && !t.album_name.as_str().is_empty() {
        push_row(&mut rows, MenuRow::ShowSimilarAlbums);
    }
    if artist {
        push_row(&mut rows, MenuRow::RelatedArtists);
    }
    push_row(&mut rows, MenuRow::SonicAdventure);
    if artist {
        push_row(&mut rows, MenuRow::Sep);
        push_row(&mut rows, MenuRow::ShowArtistBio);
        push_row(&mut rows, MenuRow::OpenInLibrary);
    }
    proof {
        assert(rows@ =~= track_rows_spec(*t));
    }
    rows
}

/// The title of the first artist in `roster` with key `key`.
pub open spec fn artist_title_in(roster: Seq<LibraryArtist>, key: Seq<char>) -> Option<Seq<char>>
    decreases roster.len(),
{
    if roster.len() == 0 {
        None
    } else if roster[0].rating_key@ == key {
        Some(roster[0].title@)
    } else {
        artist_title_in(roster.drop_first(), key)
    }
}

/// The artist name of a folder track: looked up by key among the album
/// artists, then among the track artists.
pub open spec fn folder_artist_name(
    artist_key: Option<String>,
    artists: Seq<LibraryArtist>,
    track_artists: Seq<LibraryArtist>,
) -> Option<Seq<char>> {
    match artist_key {
        Some(k) => if artist_title_in(artists, k@) is Some {
            artist_title_in(artists, k@)
        } else {
            artist_title_in(track_artists, k@)
        },
        None => None,
    }
}

/// The rows of the menu of a folder track: play, then — when its artist
/// resolves to a non-empty name — the bio and, with an album key, "Open in
/// Library".
pub open spec fn folder_rows_spec(name: Option<Seq<char>>, album_key: Option<String>) -> Seq<MenuRow> {
    seq![MenuRow::Play] + (if name is Some && name->0.len() > 0 {
        seq![MenuRow::Sep, MenuRow::ShowArtistBio] + (if album_key is Some {
            seq![MenuRow::OpenInLibrary]
        } else {
            Seq::<MenuRow>::empty()
        })
    } else {
        Seq::<MenuRow>::empty()
    })
}

pub(crate) fn lookup_artist(roster: &Vec<LibraryArtist>, key: &str) -> (r: Option<String>)
    ensures
        match r {
            Some(t) => artist_title_in(roster@, key@) == Some(t@),
            None => artist_title_in(roster@, key@) is None,
        },
{
    let mut i: usize = 0;
    proof {
        assert(roster@.skip(0) =~= roster@);
    }
    while i < roster.len()
        invariant
            i <= roster@.len(),
            artist_title_in(roster@, key@) == artist_title_in(roster@.skip(i as int), key@),
        decreases roster@.len() - i,
    {
        proof {
            assert(roster@.skip(i as int).drop_first() =~= roster@.skip(i as int + 1));
            assert(roster@.skip(i as int)[0] == roster@[i as int]);
        }
        if eq_str(roster[i].rating_key.as_str(), key) {
            return Some(roster[i].title.clone());
        }
        i = i + 1;
    }
    None
}

/// The rows of the right-click menu of a folder row: `None` unless the row
/// is a track.
pub fn folder_menu_rows(
    is_track: bool,
    artist_key: &Option<String>,
    album_key: &Option<String>,
    artists: &Vec<LibraryArtist>,
    track_artists: &Vec<LibraryArtist>,
) -> (r: Option<Vec<MenuRow>>)
    ensures
        match r {
            Some(v) => is_track && v@ == folder_rows_spec(
                folder_artist_name(*artist_key, artists@, track_artists@),
                *album_key,
            ),
            None => !is_track,
        },
{
    if !is_track {
        return None;
    }
    let name = match artist_key {
        Some(k) => match lookup_artist(artists, k.as_str()) {
            Some(t) => Some(t),
            None => lookup_artist(track_artists, k.as_str()),
        },
        None => None,
    };
    let mut rows: Vec<MenuRow> = Vec::new();
    push_row(&mut rows, MenuRow::Play);
    match &name {
        Some(n) => {
            if !n.as_str().is_empty() {
                push_row(&mut rows, MenuRow::Sep);
                push_row(&mut rows, MenuRow::ShowArtistBio);
                if album_key.is_some() {
                    push_row(&mut rows, MenuRow::OpenInLibrary);
                }
            }
        },
        None => {},
    }
    proof {
        assert(rows@ =~= folder_rows_spec(folder_artist_name(*artist_key, artists@, track_artists@), *album_key));
    }
    Some(rows)
}

} // verus!
