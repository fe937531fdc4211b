//! The commands behind the right-click menu entries: for each row that a
//! Miller-column, queue, track or folder menu offers (see `ctxmenu`), what
//! a click on it hands to the core, and whether it runs behind the
//! Similar or the Related popup.

use vstd::prelude::*;
use crate::action::{Action, AppView};
use crate::browse::{
    BrowseCategory, BrowseColumn, BrowseItem, TrackInfo, LibraryTarget, is_track_target, open_in_library_for_track,
    open_in_library_for_track_obj, search_query_spec, external_search_query_for_item, opt_view,
};
use crate::ctxmenu::{
    MenuRow, ExternalSearchToggles, has_artist, folder_artist_name, lookup_artist, album_opens, miller_rows_spec,
    track_row_rows, search_rows, queue_rows_spec, queue_edit_rows, queue_track_rows, track_rows_spec,
    folder_rows_spec,
};
use crate::miller::{BrowseState, LibraryArtist, clone_track, album_artist_in, focused_items, open_in_library_for_album};
use crate::strings::{push_str, empty_string};

verus! {

/// How a menu entry runs its commands: at once, or behind the Similar or
/// the Related popup (which opens over the current view and shows what
/// the commands load).
#[derive(PartialEq, Eq, Structural, Clone, Copy, Debug)]
pub enum Via {
    Direct,
    SimilarPopup,
    RelatedPopup,
}

/// What a menu entry does: its commands, in order, and how they run.
#[derive(Clone, Debug)]
pub struct MenuCommand {
    pub via: Via,
    pub actions: Vec<Action>,
}

/// Whether `c` runs exactly `acts` by way `v`.
pub open spec fn runs(c: Option<MenuCommand>, v: Via, acts: Seq<Action>) -> bool {
    c matches Some(m) && m.via == v && m.actions@ == acts
}

/// Whether `c` runs the single command `a` at once.
pub open spec fn runs_one(c: Option<MenuCommand>, a: Action) -> bool {
    runs(c, Via::Direct, seq![a])
}

fn one(via: Via, a: Action) -> (r: Option<MenuCommand>)
    ensures
        runs(r, via, seq![a]),
{
    let mut v: Vec<Action> = Vec::new();
    v.push(a);
    proof {
        assert(v@ =~= seq![a]);
    }
    Some(MenuCommand { via, actions: v })
}

fn clone_string_opt(o: &Option<String>) -> (r: Option<String>)
    ensures
        r == *o,
{
    match o {
        Some(s) => Some(s.clone()),
        None => None,
    }
}

/// The title under which a track's similar tracks are shown:
/// "Artist - Title".
pub open spec fn track_label(t: TrackInfo) -> Seq<char> {
    t.artist_name@ + " - "@ + t.title@
}

fn track_label_of(t: &TrackInfo) -> (r: String)
    ensures
        r@ == track_label(*t),
{
    let mut out = empty_string();
    push_str(&mut out, t.artist_name.as_str());
    push_str(&mut out, " - ");
    push_str(&mut out, t.title.as_str());
    out
}

/// The commands of the entries about a track that the queue and the
/// free-standing track menus share: similar tracks, similar albums (with
/// an album key and a name), and, with an artist, related artists, the
/// bio and "Open in Library". Other rows: `None`.
pub open spec fn about_track_ok(c: Option<MenuCommand>, t: TrackInfo, row: MenuRow) -> bool {
    match row {
        MenuRow::ShowSimilarTracks => {
            &&& c matches Some(m)
            &&& m.via == Via::SimilarPopup
            &&& m.actions@.len() == 1
            &&& m.actions@[0] matches Action::LoadSimilarTracks { rating_key, title }
            &&& rating_key == t.rating_key
            &&& title@ == track_label(t)
        },
        MenuRow::ShowSimilarAlbums => if t.album_key is Some && t.album_name@.len() > 0 {
            runs(
                c,
                Via::SimilarPopup,
                seq![Action::LoadSimilarAlbums { rating_key: t.album_key->0, title: t.album_name }],
            )
        } else {
            c is None
        },
        MenuRow::RelatedArtists => if has_artist(t) {
            runs(c, Via::RelatedPopup, seq![Action::LoadRelated { artist_key: t.artist_key->0, title: t.artist_name }])
        } else {
            c is None
        },
        MenuRow::ShowArtistBio => if has_artist(t) {
            runs_one(c, Action::ShowArtistBio { artist_key: t.artist_key->0, artist_name: t.artist_name })
        } else {
            c is None
        },
        MenuRow::OpenInLibrary => if has_artist(t) {
            &&& c matches Some(m)
            &&& m.via == Via::Direct
            &&& m.actions@.len() == 1
            &&& m.actions@[0] matches Action::OpenInLibrary(g)
            &&& is_track_target(g, t)
        } else {
            c is None
        },
        _ => c is None,
    }
}

fn about_track_command(t: &TrackInfo, row: MenuRow) -> (r: Option<MenuCommand>)
    ensures
        about_track_ok(r, *t, row),
{
    let artist = match &t.artist_key {
        Some(_) => !t.artist_name.as_str().is_empty(),
        None => false,
    };
    match row {
        MenuRow::ShowSimilarTracks => one(
            Via::SimilarPopup,
            Action::LoadSimilarTracks { rating_key: t.rating_key.clone(), title: track_label_of(t) },
        ),
        MenuRow::ShowSimilarAlbums => match &t.album_key {
            Some(ak) => if !t.album_name.as_str().is_empty() {
                one(Via::SimilarPopup, Action::LoadSimilarAlbums { rating_key: ak.clone(), title: t.album_name.clone() })
            } else {
                None
            },
            None => None,
        },
        MenuRow::RelatedArtists => match &t.artist_key {
            Some(k) => if artist {
                one(Via::RelatedPopup, Action::LoadRelated { artist_key: k.clone(), title: t.artist_name.clone() })
            } else {
                None
            },
            None => None,
        },
        MenuRow::ShowArtistBio => match &t.artist_key {
            Some(k) => if artist {
                one(Via::Direct, Action::ShowArtistBio { artist_key: k.clone(), artist_name: t.artist_name.clone() })
            } else {
                None
            },
            None => None,
        },
        MenuRow::OpenInLibrary => if artist {
            match open_in_library_for_track_obj(t) {
                Some(g) => one(Via::Direct, Action::OpenInLibrary(g)),
                None => None,
            }
        } else {
            None
        },
        _ => None,
    }
}

/// The commands of the queue menu's entries for row `row_index` of the
/// list playing, whose track is `t`: play it (jump to it in radio mode),
/// queue the selection next or last, move or delete the selection or the
/// row, and the entries about the track.
pub open spec fn queue_command_ok(c: Option<MenuCommand>, radio_mode: bool, t: TrackInfo, row_index: usize, row: MenuRow) -> bool {
    match row {
        MenuRow::Play => runs_one(
            c,
            if radio_mode {
                Action::JumpToRadioTrack(row_index)
            } else {
                Action::PlayTrackFromCategory(row_index)
            },
        ),
        MenuRow::PlayNext => runs_one(c, Action::EnqueueSelectionNext),
        MenuRow::AddToEnd => runs_one(c, Action::EnqueueSelection),
        MenuRow::MoveSelectedUp(_) => runs_one(c, Action::MoveSelectedTracksUp),
        MenuRow::MoveSelectedDown(_) => runs_one(c, Action::MoveSelectedTracksDown),
        MenuRow::DeleteSelected(_) => runs_one(c, Action::RemoveSelectedFromQueue),
        MenuRow::MoveUp => runs_one(c, Action::MoveQueueRowUp(row_index)),
        MenuRow::MoveDown => runs_one(c, Action::MoveQueueRowDown(row_index)),
        MenuRow::DeleteFromQueue => runs_one(c, Action::RemoveFromQueue(row_index)),
        _ => about_track_ok(c, t, row),
    }
}

/// What the queue-menu entry `row` of row `row_index` (track `t`) does;
/// see `queue_command_ok`.
pub fn queue_row_command(radio_mode: bool, t: &TrackInfo, row_index: usize, row: MenuRow) -> (r: Option<MenuCommand>)
    ensures
        queue_command_ok(r, radio_mode, *t, row_index, row),
{
    match row {
        MenuRow::Play => one(
            Via::Direct,
            if radio_mode {
                Action::JumpToRadioTrack(row_index)
            } else {
                Action::PlayTrackFromCategory(row_index)
            },
        ),
        MenuRow::PlayNext => one(Via::Direct, Action::EnqueueSelectionNext),
        MenuRow::AddToEnd => one(Via::Direct, Action::EnqueueSelection),
        MenuRow::MoveSelectedUp(_) => one(Via::Direct, Action::MoveSelectedTracksUp),
        MenuRow::MoveSelectedDown(_) => one(Via::Direct, Action::MoveSelectedTracksDown),
        MenuRow::DeleteSelected(_) => one(Via::Direct, Action::RemoveSelectedFromQueue),
        MenuRow::MoveUp => one(Via::Direct, Action::MoveQueueRowUp(row_index)),
        MenuRow::MoveDown => one(Via::Direct, Action::MoveQueueRowDown(row_index)),
        MenuRow::DeleteFromQueue => one(Via::Direct, Action::RemoveFromQueue(row_index)),
        _ => about_track_command(t, row),
    }
}

/// The commands of the menu of a free-standing track `t`: play it, queue
/// it next or last, start a Sonic Adventure from it, and the entries about
/// the track.
pub open spec fn track_command_ok(c: Option<MenuCommand>, t: TrackInfo, row: MenuRow) -> bool {
    match row {
        MenuRow::PlayTrack { .. } => runs_one(c, Action::PlayTrack(t)),
        MenuRow::PlayNext => {
            &&& c matches Some(m)
            &&& m.via == Via::Direct
            &&& m.actions@.len() == 1
            &&& m.actions@[0] matches Action::EnqueueTracksNext(v)
            &&& v@ == seq![t]
        },
        MenuRow::AddToEnd => runs_one(c, Action::EnqueueTrack(t)),
        MenuRow::SonicAdventure => runs_one(c, Action::OpenAdventureLauncherWithStart(t)),
        _ => about_track_ok(c, t, row),
    }
}

/// What the entry `row` of the menu of a free-standing track does; see
/// `track_command_ok`.
pub fn track_row_command(t: &TrackInfo, row: MenuRow) -> (r: Option<MenuCommand>)
    ensures
        track_command_ok(r, *t, row),
{
    match row {
        MenuRow::PlayTrack { .. } => one(Via::Direct, Action::PlayTrack(clone_track(t))),
        MenuRow::PlayNext => {
            let mut v: Vec<TrackInfo> = Vec::new();
            v.push(clone_track(t));
            proof {
                assert(v@ =~= seq![*t]);
            }
            let r = one(Via::Direct, Action::EnqueueTracksNext(v));
            r
        },
        MenuRow::AddToEnd => one(Via::Direct, Action::EnqueueTrack(clone_track(t))),
        MenuRow::SonicAdventure => one(Via::Direct, Action::OpenAdventureLauncherWithStart(clone_track(t))),
        _ => about_track_command(t, row),
    }
}

/// The commands of the menu of folder track row `row_index`: play it;
/// with its artist resolved to a non-empty name (`name`), the bio, and,
/// with an album key, "Open in Library" on that artist and album.
pub open spec fn folder_command_ok(
    c: Option<MenuCommand>,
    row_index: usize,
    artist_key: Option<String>,
    name: Option<Seq<char>>,
    album_key: Option<String>,
    row: MenuRow,
) -> bool {
    let named = artist_key is Some && name is Some && name->0.len() > 0;
    match row {
        MenuRow::Play => runs_one(c, Action::PlayFolderTrack(row_index)),
        MenuRow::ShowArtistBio => if named {
            &&& c matches Some(m)
            &&& m.via == Via::Direct
            &&& m.actions@.len() == 1
            &&& m.actions@[0] matches Action::ShowArtistBio { artist_key: k, artist_name: n }
            &&& k == artist_key->0
            &&& n@ == name->0
        } else {
            c is None
        },
        MenuRow::OpenInLibrary => if named && album_key is Some {
            &&& c matches Some(m)
            &&& m.via == Via::Direct
            &&& m.actions@.len() == 1
            &&& m.actions@[0] matches Action::OpenInLibrary(g)
            &&& g.artist_key == artist_key->0
            &&& g.artist_name@ == name->0
            &&& g.album_key == album_key
            &&& g.album_title is None
        } else {
            c is None
        },
        _ => c is None,
    }
}

/// What the entry `row` of the menu of folder track row `row_index` does;
/// the artist's name is looked up by key among the album artists, then
/// the track artists. See `folder_command_ok`.
pub fn folder_row_command(
    row_index: usize,
    artist_key: &Option<String>,
    album_key: &Option<String>,
    artists: &Vec<LibraryArtist>,
    track_artists: &Vec<LibraryArtist>,
    row: MenuRow,
) -> (r: Option<MenuCommand>)
    ensures
        folder_command_ok(
            r,
            row_index,
            *artist_key,
            folder_artist_name(*artist_key, artists@, track_artists@),
            *album_key,
            row,
        ),
{
    if let MenuRow::Play = row {
        return one(Via::Direct, Action::PlayFolderTrack(row_index));
    }
    let key = match artist_key {
        Some(k) => k,
        None => {
            return None;
        },
    };
    let name = match lookup_artist(artists, key.as_str()) {
        Some(t) => Some(t),
        None => lookup_artist(track_artists, key.as_str()),
    };
    let name = match name {
        Some(n) => n,
        None => {
            return None;
        },
    };
    if name.as_str().is_empty() {
        return None;
    }
    match row {
        MenuRow::ShowArtistBio => one(Via::Direct, Action::ShowArtistBio { artist_key: key.clone(), artist_name: name }),
        MenuRow::OpenInLibrary => match album_key {
            Some(_) => one(
                Via::Direct,
                Action::OpenInLibrary(
                    LibraryTarget {
                        artist_key: key.clone(),
                        artist_name: name,
                        album_key: clone_string_opt(album_key),
                        album_title: None,
                    },
                ),
            ),
            None => None,
        },
        _ => None,
    }
}

/// The full tracks of the multi-selected rows, in selection order, for
/// the rows that have one.
pub open spec fn selected_tracks(sel: Seq<usize>, tracks: Seq<TrackInfo>) -> Seq<TrackInfo>
    decreases sel.len(),
{
    if sel.len() == 0 {
        Seq::empty()
    } else {
        let rest = selected_tracks(sel.drop_last(), tracks);
        if (sel.last() as nat) < tracks.len() {
            rest.push(tracks[sel.last() as int])
        } else {
            rest
        }
    }
}

fn collect_selected(col: &BrowseColumn) -> (r: Vec<TrackInfo>)
    ensures
        r@ == selected_tracks(col.selected_set@, col.tracks@),
{
    let mut out: Vec<TrackInfo> = Vec::new();
    let mut j: usize = 0;
    while j < col.selected_set.len()
        invariant
            j <= col.selected_set@.len(),
            out@ == selected_tracks(col.selected_set@.take(j as int), col.tracks@),
        decreases col.selected_set@.len() - j,
    {
        let i = col.selected_set[j];
        proof {
            assert(col.selected_set@.take(j as int + 1).drop_last() =~= col.selected_set@.take(j as int));
            assert(col.selected_set@.take(j as int + 1).last() == i);
        }
        if i < col.tracks.len() {
            out.push(clone_track(&col.tracks[i]));
        }
        j = j + 1;
    }
    proof {
        assert(col.selected_set@.take(j as int) =~= col.selected_set@);
    }
    out
}

/// The command that plays track row `ii` of column `ci` in the browse
/// category's own navigation, alone (`single`) or with what follows.
pub open spec fn play_from_miller(category: BrowseCategory, ci: usize, ii: usize, single: bool) -> Action {
    match category {
        BrowseCategory::Genres => Action::PlayGenreTrackFromMiller { column_index: ci, track_index: ii, single_track: single },
        BrowseCategory::Playlists => Action::PlayPlaylistTrackFromMiller {
            column_index: ci,
            track_index: ii,
            single_track: single,
        },
        _ => Action::PlayTrackFromMiller { column_index: ci, track_index: ii, single_track: single },
    }
}

/// Whether `g` is where "Open in Library" takes album `key` (`title`): the
/// first library artist named like the album's artist in the focused
/// column, and the album.
pub open spec fn is_album_target(g: LibraryTarget, s: BrowseState, artists: Seq<LibraryArtist>, key: Seq<char>, title: Seq<char>) -> bool {
    let name = album_artist_in(focused_items(s), key);
    &&& name.len() > 0
    &&& exists|j: int|
        0 <= j < artists.len() && artists[j].title@ == name && (forall|k: int|
            0 <= k < j ==> (#[trigger] artists[k]).title@ != name) && g.artist_key == artists[j].rating_key
            && g.artist_name == artists[j].title && opt_view(g.album_key) == Some(key) && opt_view(g.album_title)
            == Some(title)
}

/// Whether `c` runs one `OpenInLibrary` command at once.
pub open spec fn opens_library(c: Option<MenuCommand>) -> bool {
    &&& c matches Some(m)
    &&& m.via == Via::Direct
    &&& m.actions@.len() == 1
    &&& m.actions@[0] is OpenInLibrary
}

/// The commands of the Miller menu's entries for track row `ii` (key
/// `key`, title `title`) of column `ci`.
pub open spec fn miller_track_ok(
    c: Option<MenuCommand>,
    s: BrowseState,
    ci: usize,
    ii: usize,
    col: BrowseColumn,
    key: String,
    title: String,
    row: MenuRow,
) -> bool {
    let has_track = ii < col.tracks@.len();
    let t = col.tracks@[ii as int];
    let sel = selected_tracks(col.selected_set@, col.tracks@);
    match row {
        MenuRow::PlayTrack { .. } => runs_one(c, play_from_miller(s.category, ci, ii, true)),
        MenuRow::PlayTrackAndFollowing { .. } => runs_one(c, play_from_miller(s.category, ci, ii, false)),
        MenuRow::AddTracksToEnd(_) => runs(c, Via::Direct, sel.map_values(|x: TrackInfo| Action::EnqueueTrack(x))),
        MenuRow::PlayTracksNext(_) => {
            &&& c matches Some(m)
            &&& m.via == Via::Direct
            &&& m.actions@.len() == 1
            &&& m.actions@[0] matches Action::EnqueueTracksNext(v)
            &&& v@ == sel
        },
        MenuRow::AddToEnd => runs_one(c, Action::EnqueueSelection),
        MenuRow::PlayNext => runs_one(c, Action::EnqueueSelectionNext),
        MenuRow::ShowSimilarTracks => runs(c, Via::SimilarPopup, seq![Action::LoadSimilarTracks { rating_key: key, title }]),
        MenuRow::SonicAdventure => runs_one(
            c,
            if has_track {
                Action::OpenAdventureLauncherWithStart(t)
            } else {
                Action::OpenAdventureLauncher
            },
        ),
        MenuRow::GoToNowPlaying => runs(c, Via::Direct, seq![Action::SetView(AppView::NowPlaying), Action::LoadWaveform]),
        MenuRow::ShowArtistBio => if has_track && has_artist(t) {
            runs_one(c, Action::ShowArtistBio { artist_key: t.artist_key->0, artist_name: t.artist_name })
        } else {
            c is None
        },
        MenuRow::OpenInLibrary => if has_track && t.artist_key is Some && t.album_key is Some {
            opens_library(c) && (c->0.actions@[0] matches Action::OpenInLibrary(g) && is_track_target(g, t))
        } else {
            c is None
        },
        _ => c is None,
    }
}

fn miller_track_command(state: &BrowseState, ci: usize, ii: usize, col: &BrowseColumn, key: &String, title: &String, row: MenuRow) -> (r: Option<MenuCommand>)
    ensures
        miller_track_ok(r, *state, ci, ii, *col, *key, *title, row),
{
    let play = |single: bool| -> (a: Action)
        ensures
            a == play_from_miller(state.category, ci, ii, single),
        {
            match state.category {
                BrowseCategory::Genres => Action::PlayGenreTrackFromMiller { column_index: ci, track_index: ii, single_track: single },
                BrowseCategory::Playlists => Action::PlayPlaylistTrackFromMiller {
                    column_index: ci,
                    track_index: ii,
                    single_track: single,
                },
                _ => Action::PlayTrackFromMiller { column_index: ci, track_index: ii, single_track: single },
            }
        };
    match row {
        MenuRow::PlayTrack { .. } => one(Via::Direct, play(true)),
        MenuRow::PlayTrackAndFollowing { .. } => one(Via::Direct, play(false)),
        MenuRow::AddTracksToEnd(_) => {
            let sel = collect_selected(col);
            let mut acts: Vec<Action> = Vec::new();
            let mut j: usize = 0;
            while j < sel.len()
                invariant
                    j <= sel@.len(),
                    acts@ =~= sel@.take(j as int).map_values(|x: TrackInfo| Action::EnqueueTrack(x)),
                decreases sel@.len() - j,
            {
                acts.push(Action::EnqueueTrack(clone_track(&sel[j])));
                proof {
                    assert(sel@.take(j as int + 1) =~= sel@.take(j as int).push(sel@[j as int]));
                }
                j = j + 1;
            }
            proof {
                assert(sel@.take(j as int) =~= sel@);
            }
            Some(MenuCommand { via: Via::Direct, actions: acts })
        },
        MenuRow::PlayTracksNext(_) => one(Via::Direct, Action::EnqueueTracksNext(collect_selected(col))),
        MenuRow::AddToEnd => one(Via::Direct, Action::EnqueueSelection),
        MenuRow::PlayNext => one(Via::Direct, Action::EnqueueSelectionNext),
        MenuRow::ShowSimilarTracks => one(
            Via::SimilarPopup,
            Action::LoadSimilarTracks { rating_key: key.clone(), title: title.clone() },
        ),
        MenuRow::SonicAdventure => if ii < col.tracks.len() {
            one(Via::Direct, Action::OpenAdventureLauncherWithStart(clone_track(&col.tracks[ii])))
        } else {
            one(Via::Direct, Action::OpenAdventureLauncher)
        },
        MenuRow::GoToNowPlaying => {
            let mut acts: Vec<Action> = Vec::new();
            acts.push(Action::SetView(AppView::NowPlaying));
            acts.push(Action::LoadWaveform);
            proof {
                assert(acts@ =~= seq![Action::SetView(AppView::NowPlaying), Action::LoadWaveform]);
            }
            Some(MenuCommand { via: Via::Direct, actions: acts })
        },
        MenuRow::ShowArtistBio => {
            if ii >= col.tracks.len() {
                return None;
            }
            let t = &col.tracks[ii];
            match &t.artist_key {
                Some(k) => if !t.artist_name.as_str().is_empty() {
                    one(Via::Direct, Action::ShowArtistBio { artist_key: k.clone(), artist_name: t.artist_name.clone() })
                } else {
                    None
                },
                None => None,
            }
        },
        MenuRow::OpenInLibrary => match open_in_library_for_track(col, ii) {
            Some(g) => one(Via::Direct, Action::OpenInLibrary(g)),
            None => None,
        },
        _ => None,
    }
}

/// The commands of the Miller menu's entries for album row `key`
/// (`title`).
pub open spec fn miller_album_ok(
    c: Option<MenuCommand>,
    s: BrowseState,
    artists: Seq<LibraryArtist>,
    key: String,
    title: String,
    row: MenuRow,
) -> bool {
    match row {
        MenuRow::PlayAlbum => runs_one(c, Action::PlayAlbumNow { rating_key: key, title }),
        MenuRow::AddAlbumToEnd => runs_one(c, Action::EnqueueAlbum { rating_key: key, title }),
        MenuRow::PlayAlbumNext => runs_one(c, Action::EnqueueAlbumNext { rating_key: key, title }),
        MenuRow::ShowSimilarAlbums => runs(c, Via::SimilarPopup, seq![Action::LoadSimilarAlbums { rating_key: key, title }]),
        MenuRow::SonicAdventure => runs_one(c, Action::OpenAdventureLauncher),
        MenuRow::OpenInLibrary => if album_opens(s, artists, key@) {
            opens_library(c) && (c->0.actions@[0] matches Action::OpenInLibrary(g) && is_album_target(g, s, artists, key@, title@))
        } else {
            c is None
        },
        _ => c is None,
    }
}

/// The commands of the Miller menu's entries for artist row `key`
/// (`title`).
pub open spec fn miller_artist_ok(c: Option<MenuCommand>, key: String, title: String, row: MenuRow) -> bool {
    match row {
        MenuRow::ArtistRadio => runs_one(c, Action::StartPlexRadio { key, title }),
        MenuRow::SimilarArtists => runs(c, Via::SimilarPopup, seq![Action::LoadSimilarArtists { artist_key: key, title }]),
        MenuRow::RelatedArtists => runs(c, Via::RelatedPopup, seq![Action::LoadRelated { artist_key: key, title }]),
        MenuRow::ArtistBio => runs_one(c, Action::ShowArtistBio { artist_key: key, artist_name: title }),
        _ => c is None,
    }
}

/// The commands of the Miller menu's entries for row `ii` of column `ci`:
/// by the row's kind (see the `miller_*_ok` predicates); an external
/// search opens the service with the row's search query. `None` for a
/// row or column that does not exist and for entries the row's kind does
/// not have.
pub open spec fn miller_command_ok(
    c: Option<MenuCommand>,
    s: BrowseState,
    ci: usize,
    ii: usize,
    artists: Seq<LibraryArtist>,
    row: MenuRow,
) -> bool {
    if !(s.nav is Some && ci < s.nav->0.columns@.len() && ii < s.nav->0.columns@[ci as int].items@.len()) {
        c is None
    } else {
        let col = s.nav->0.columns@[ci as int];
        let item = col.items@[ii as int];
        let q = search_query_spec(item, col.tracks@, ii as int);
        match row {
            MenuRow::SearchExternal(target) => if q is Some && (item is Track || item is Album || item is Artist
                || item is Playlist) {
                &&& c matches Some(m)
                &&& m.via == Via::Direct
                &&& m.actions@.len() == 1
                &&& m.actions@[0] matches Action::OpenExternalSearch { target: tt, query: Some(qs) }
                &&& tt == target
                &&& qs@ == q->0
            } else {
                c is None
            },
            _ => match item {
                BrowseItem::Track { key, title, .. } => miller_track_ok(c, s, ci, ii, col, key, title, row),
                BrowseItem::Album { key, title, .. } => miller_album_ok(c, s, artists, key, title, row),
                BrowseItem::Artist { key, title } => miller_artist_ok(c, key, title, row),
                BrowseItem::Playlist { key, title } => if row == MenuRow::PlayPlaylist {
                    runs_one(c, Action::PlayPlaylistNow { playlist_key: key, title })
                } else {
                    c is None
                },
                _ => c is None,
            },
        }
    }
}

/// What the Miller-menu entry `row` of row `item_index` in column
/// `column_index` does; `artists` is the library's artist roster (for
/// "Open in Library" on album rows). See `miller_command_ok`.
pub fn miller_row_command(
    state: &BrowseState,
    column_index: usize,
    item_index: usize,
    artists: &Vec<LibraryArtist>,
    row: MenuRow,
) -> (r: Option<MenuCommand>)
    ensures
        miller_command_ok(r, *state, column_index, item_index, artists@, row),
{
    let nav = match &state.nav {
        Some(n) => n,
        None => {
            return None;
        },
    };
    if column_index >= nav.columns.len() {
        return None;
    }
    let col = &nav.columns[column_index];
    if item_index >= col.items.len() {
        return None;
    }
    let item = &col.items[item_index];
    proof {
        assert(state.nav->0.columns@[column_index as int] == *col);
    }
    if let MenuRow::SearchExternal(target) = row {
        let searchable = match item {
            BrowseItem::Track { .. } | BrowseItem::Album { .. } | BrowseItem::Artist { .. } | BrowseItem::Playlist {
                ..
            } => true,
            _ => false,
        };
        if !searchable {
            return None;
        }
        return match external_search_query_for_item(item, col, item_index) {
            Some(q) => one(Via::Direct, Action::OpenExternalSearch { target, query: Some(q) }),
            None => None,
        };
    }
    match item {
        BrowseItem::Track { key, title, .. } => miller_track_command(state, column_index, item_index, col, key, title, row),
        BrowseItem::Album { key, title, .. } => match row {
            MenuRow::PlayAlbum => one(Via::Direct, Action::PlayAlbumNow { rating_key: key.clone(), title: title.clone() }),
            MenuRow::AddAlbumToEnd => one(Via::Direct, Action::EnqueueAlbum { rating_key: key.clone(), title: title.clone() }),
            MenuRow::PlayAlbumNext => one(
                Via::Direct,
                Action::EnqueueAlbumNext { rating_key: key.clone(), title: title.clone() },
            ),
            MenuRow::ShowSimilarAlbums => one(
                Via::SimilarPopup,
                Action::LoadSimilarAlbums { rating_key: key.clone(), title: title.clone() },
            ),
            MenuRow::SonicAdventure => one(Via::Direct, Action::OpenAdventureLauncher),
            MenuRow::OpenInLibrary => match open_in_library_for_album(state, artists, key.as_str(), title.as_str()) {
                Some(g) => {
                    let r = one(Via::Direct, Action::OpenInLibrary(g));
                    proof {
                        assert(is_album_target(g, *state, artists@, key@, title@));
                    }
                    r
                },
                None => None,
            },
            _ => None,
        },
        BrowseItem::Artist { key, title } => match row {
            MenuRow::ArtistRadio => one(Via::Direct, Action::StartPlexRadio { key: key.clone(), title: title.clone() }),
            MenuRow::SimilarArtists => one(
                Via::SimilarPopup,
                Action::LoadSimilarArtists { artist_key: key.clone(), title: title.clone() },
            ),
            MenuRow::RelatedArtists => one(
                Via::RelatedPopup,
                Action::LoadRelated { artist_key: key.clone(), title: title.clone() },
            ),
            MenuRow::ArtistBio => one(
                Via::Direct,
                Action::ShowArtistBio { artist_key: key.clone(), artist_name: title.clone() },
            ),
            _ => None,
        },
        BrowseItem::Playlist { key, title } => match row {
            MenuRow::PlayPlaylist => one(
                Via::Direct,
                Action::PlayPlaylistNow { playlist_key: key.clone(), title: title.clone() },
            ),
            _ => None,
        },
        _ => None,
    }
}

/// Whether a track-row entry `r` has a command for row `ii` of `col`.
pub open spec fn track_entry_live(col: BrowseColumn, ii: int, r: MenuRow) -> bool {
    let has_track = 0 <= ii < col.tracks@.len();
    match r {
        MenuRow::ShowArtistBio => has_track && has_artist(col.tracks@[ii]),
        MenuRow::OpenInLibrary => has_track && col.tracks@[ii].artist_key is Some && col.tracks@[ii].album_key is Some,
        MenuRow::PlayTrack { .. } | MenuRow::PlayTrackAndFollowing { .. } | MenuRow::AddTracksToEnd(_)
        | MenuRow::PlayTracksNext(_) | MenuRow::AddToEnd | MenuRow::PlayNext | MenuRow::ShowSimilarTracks
        | MenuRow::SonicAdventure | MenuRow::GoToNowPlaying => true,
        _ => false,
    }
}

proof fn lemma_track_rows_live(col: BrowseColumn, ii: int, category: BrowseCategory, j: int)
    requires
        0 <= j < track_row_rows(col, ii, category).len(),
        track_row_rows(col, ii, category)[j] != MenuRow::Sep,
    ensures
        track_entry_live(col, ii, track_row_rows(col, ii, category)[j]),
{
}

proof fn lemma_search_rows_live(t: ExternalSearchToggles, j: int)
    requires
        0 <= j < search_rows(t).len(),
        search_rows(t)[j] != MenuRow::Sep,
    ensures
        search_rows(t)[j] is SearchExternal,
{
}

/// Every entry the Miller menu offers does something: any row of the menu
/// of row `ii` in column `ci` other than a separator has a command.
pub proof fn lemma_miller_entries_have_commands(
    s: BrowseState,
    ci: usize,
    ii: usize,
    toggles: ExternalSearchToggles,
    artists: Seq<LibraryArtist>,
    k: int,
    c: Option<MenuCommand>,
)
    requires
        miller_rows_spec(s, ci as int, ii as int, toggles, artists) is Some,
        0 <= k < miller_rows_spec(s, ci as int, ii as int, toggles, artists)->0.len(),
        miller_rows_spec(s, ci as int, ii as int, toggles, artists)->0[k] != MenuRow::Sep,
        miller_command_ok(c, s, ci, ii, artists, miller_rows_spec(s, ci as int, ii as int, toggles, artists)->0[k]),
    ensures
        c is Some,
{
    let col = s.nav->0.columns@[ci as int];
    let item = col.items@[ii as int];
    let rows = miller_rows_spec(s, ci as int, ii as int, toggles, artists)->0;
    let q = search_query_spec(item, col.tracks@, ii as int);
    let tail = if q is Some {
        search_rows(toggles)
    } else {
        Seq::<MenuRow>::empty()
    };
    let body = rows.subrange(0, rows.len() - tail.len());
    assert(rows =~= body + tail);
    let r = rows[k];
    if k >= body.len() {
        assert(r == tail[k - body.len()]);
        lemma_search_rows_live(toggles, k - body.len());
    } else {
        assert(r == body[k]);
        match item {
            BrowseItem::Track { .. } => {
                assert(body =~= track_row_rows(col, ii as int, s.category));
                lemma_track_rows_live(col, ii as int, s.category, k);
            },
            _ => {},
        }
    }
}

/// Whether an entry about track `t` has a command.
pub open spec fn about_entry_live(t: TrackInfo, r: MenuRow) -> bool {
    match r {
        MenuRow::ShowSimilarTracks => true,
        MenuRow::ShowSimilarAlbums => t.album_key is Some && t.album_name@.len() > 0,
        MenuRow::RelatedArtists | MenuRow::ShowArtistBio | MenuRow::OpenInLibrary => has_artist(t),
        _ => false,
    }
}

proof fn lemma_about_rows_live(t: TrackInfo, j: int)
    requires
        0 <= j < queue_track_rows(t).len(),
        queue_track_rows(t)[j] != MenuRow::Sep,
    ensures
        about_entry_live(t, queue_track_rows(t)[j]),
{
}

proof fn lemma_about_live_has_command(c: Option<MenuCommand>, t: TrackInfo, r: MenuRow)
    requires
        about_entry_live(t, r),
        about_track_ok(c, t, r),
    ensures
        c is Some,
{
}

/// Every entry the queue menu offers does something: any row of the menu
/// of row `row` (track `t`, of `len` rows) other than a separator has a
/// command.
pub proof fn lemma_queue_entries_have_commands(
    radio_mode: bool,
    len: nat,
    row: usize,
    selected: Seq<usize>,
    t: TrackInfo,
    k: int,
    c: Option<MenuCommand>,
)
    requires
        0 <= k < queue_rows_spec(radio_mode, len, row as nat, selected, t).len(),
        queue_rows_spec(radio_mode, len, row as nat, selected, t)[k] != MenuRow::Sep,
        queue_command_ok(c, radio_mode, t, row, queue_rows_spec(radio_mode, len, row as nat, selected, t)[k]),
    ensures
        c is Some,
{
    let rows = queue_rows_spec(radio_mode, len, row as nat, selected, t);
    let multi = selected.len() > 0 && selected.contains(row);
    let head = seq![MenuRow::Play] + (if !radio_mode {
        seq![MenuRow::PlayNext, MenuRow::AddToEnd]
    } else {
        Seq::<MenuRow>::empty()
    }) + seq![MenuRow::Sep];
    let edits = queue_edit_rows(multi, selected.len(), row as nat, len);
    let about = queue_track_rows(t);
    assert(rows =~= head + edits + about);
    let r = rows[k];
    if k < head.len() {
        assert(r == head[k]);
    } else if k < head.len() + edits.len() {
        assert(r == edits[k - head.len()]);
    } else {
        assert(r == about[k - head.len() - edits.len()]);
        lemma_about_rows_live(t, k - head.len() - edits.len());
        lemma_about_live_has_command(c, t, r);
    }
}

/// Every entry the menu of a free-standing track offers does something:
/// any row of it other than a separator has a command.
pub proof fn lemma_track_entries_have_commands(t: TrackInfo, k: int, c: Option<MenuCommand>)
    requires
        0 <= k < track_rows_spec(t).len(),
        track_rows_spec(t)[k] != MenuRow::Sep,
        track_command_ok(c, t, track_rows_spec(t)[k]),
    ensures
        c is Some,
{
    let r = track_rows_spec(t)[k];
    if r is ShowSimilarTracks || r is ShowSimilarAlbums || r is RelatedArtists || r is ShowArtistBio
        || r is OpenInLibrary {
        assert(about_entry_live(t, r));
        lemma_about_live_has_command(c, t, r);
    }
}

/// Every entry the menu of a folder track offers does something: any row
/// of it other than a separator has a command, the artist's name being
/// looked up among `artists`, then `track_artists`.
pub proof fn lemma_folder_entries_have_commands(
    row_index: usize,
    artist_key: Option<String>,
    album_key: Option<String>,
    artists: Seq<LibraryArtist>,
    track_artists: Seq<LibraryArtist>,
    k: int,
    c: Option<MenuCommand>,
)
    requires
        0 <= k < folder_rows_spec(folder_artist_name(artist_key, artists, track_artists), album_key).len(),
        folder_rows_spec(folder_artist_name(artist_key, artists, track_artists), album_key)[k] != MenuRow::Sep,
        folder_command_ok(
            c,
            row_index,
            artist_key,
            folder_artist_name(artist_key, artists, track_artists),
            album_key,
            folder_rows_spec(folder_artist_name(artist_key, artists, track_artists), album_key)[k],
        ),
    ensures
        c is Some,
{
}

} // verus!
