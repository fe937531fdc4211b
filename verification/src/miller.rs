//! Miller-column navigation decisions: what a row click does to the
//! browse state and which commands it hands to the core, the letter-strip
//! jump, and the "Open in Library" lookup for album rows.

use vstd::prelude::*;
use crate::browse::{BrowseCategory, BrowseColumn, BrowseItem, LibraryTarget, TrackInfo};
use crate::strings::{eq_str, strip_prefix};
use crate::action::{Action, AppView};
use crate::selection::{range_rows, toggle_in, shift_range, toggled};
use crate::folders::FolderNav;

verus! {

/// A click on a Miller row: column, row, and whether it activates
/// (double-click / Enter-equivalent).
#[derive(Clone, Copy, Debug)]
pub struct RowClick {
    pub column_index: usize,
    pub item_index: usize,
    pub activate: bool,
}

/// The Miller navigation of the active browse category.
#[derive(Clone, Debug)]
pub struct MillerNav {
    pub columns: Vec<BrowseColumn>,
    pub focused_column: usize,
}

/// The part of the application state that browse clicks read and change.
#[derive(Clone, Debug)]
pub struct BrowseState {
    pub category: BrowseCategory,
    /// The Miller navigation of `category` (`None` where the category has none).
    pub nav: Option<MillerNav>,
    pub category_column_focused: bool,
    /// The track shown in the details pane right of the columns.
    pub track_details: Option<TrackInfo>,
    pub track_pane_focused: bool,
    pub track_pane_index: usize,
    pub selected_album_title: String,
    /// Set when a drill was dispatched, so the next column load focuses it.
    pub auto_drill_pending: bool,
}

/// An artist of the library cache.
#[derive(Clone, Debug)]
pub struct LibraryArtist {
    pub rating_key: String,
    pub title: String,
}

/// Key prefix of the per-artist "Compilation Tracks → All Tracks" row.
pub open spec fn comp_tracks_prefix() -> Seq<char> {
    "__comp_tracks:"@
}

/// The commands a drill into `item` dispatches (no album grouping
/// involved); `track` is the column's full track at the row.
pub open spec fn drill_ok(r: Seq<Action>, item: BrowseItem, category: BrowseCategory, track: Option<
    TrackInfo,
>) -> bool {
    match item {
        BrowseItem::Artist { key, .. } => r =~= seq![Action::LoadArtistAlbumsForMiller { artist_key: key }],
        BrowseItem::Album { key, .. } => if category == BrowseCategory::Genres {
            r =~= seq![Action::LoadGenreTracksForMiller { album_key: key }]
        } else {
            r =~= seq![Action::LoadAlbumTracksForMiller { album_key: key }]
        },
        BrowseItem::Track { .. } => match track {
            Some(t) => r =~= seq![Action::OpenTrackDetails(t)],
            None => r.len() == 0,
        },
        BrowseItem::Playlist { key, .. } => r =~= seq![
            Action::LoadPlaylistTracksForMiller { playlist_key: key },
        ],
        BrowseItem::Genre { key, .. } => r =~= seq![Action::LoadGenreAlbumsForMiller { genre_key: key }],
        BrowseItem::AllTracks { artist_key, artist_name } => if artist_key@ == "__all_library__"@ {
            r =~= seq![Action::LoadAllLibraryTracksForMiller]
        } else if artist_key@ == "__all_comp__"@ {
            r =~= seq![Action::LoadAllCompilationTracksForMiller]
        } else if comp_tracks_prefix().is_prefix_of(artist_key@) {
            &&& r.len() == 1
            &&& r[0] matches Action::LoadCompilationAllTracksForMiller { artist_key: k, artist_name: n }
            &&& k@ == artist_key@.skip(comp_tracks_prefix().len() as int)
            &&& n == artist_name
        } else {
            r =~= seq![Action::LoadArtistAllTracksForMiller { artist_key }]
        },
        BrowseItem::AllArtists => r =~= seq![Action::LoadAllAlbumsForMiller],
        BrowseItem::Compilations => r =~= seq![Action::LoadCompilationsForMiller],
        BrowseItem::CompilationTracks { artist_key, artist_name } => r =~= seq![
            Action::LoadCompilationAlbumsForMiller { artist_key, artist_name },
        ],
        BrowseItem::ArtistRadio { artist_key, artist_name } => r =~= seq![
            Action::StartPlexRadio { key: artist_key, title: artist_name },
        ],
        BrowseItem::GenreCategory { key, .. } => r =~= seq![
            Action::DrillGenreCategory { category_key: key },
        ],
    }
}

/// `cols` with the cursor of column `ci` moved to row `ii`.
pub open spec fn select_in(cols: Seq<BrowseColumn>, ci: int, ii: usize) -> Seq<BrowseColumn> {
    let c = cols[ci];
    cols.update(
        ci,
        BrowseColumn { selected_index: ii, ..c },
    )
}

/// The columns after the cursor move; a plain (non-activating) click
/// also drops every column right of the clicked one.
pub open spec fn kept_columns(cols: Seq<BrowseColumn>, ci: int, ii: usize, activate: bool) -> Seq<
    BrowseColumn,
> {
    if activate {
        select_in(cols, ci, ii)
    } else {
        select_in(cols, ci, ii).take(ci + 1)
    }
}

/// Whether something is open right of column `ci` (a child column or
/// the track-details pane).
pub open spec fn has_child(s: BrowseState, cols: Seq<BrowseColumn>, ci: int) -> bool {
    ci + 1 < cols.len() || s.track_details is Some
}

/// Whether the click drills: an activating click, or a plain click while
/// something is already open to the right (the rightward side refills).
pub open spec fn click_drills(s: BrowseState, cols: Seq<BrowseColumn>, ci: int, activate: bool) -> bool {
    activate || has_child(s, cols, ci)
}

/// Whether the click drills into a playlist album group locally, with the
/// column the grouping produced.
pub open spec fn uses_group(
    s: BrowseState,
    kept: Seq<BrowseColumn>,
    ci: int,
    ii: int,
    grouped: Option<BrowseColumn>,
) -> bool {
    &&& s.category == BrowseCategory::Playlists
    &&& kept[ci].grouped_by_album
    &&& grouped is Some
    &&& kept[ci].items@[ii] is Album
}

/// The full track at row `ii` of a column, when it has one.
pub open spec fn track_at(c: BrowseColumn, ii: int) -> Option<TrackInfo> {
    if 0 <= ii < c.tracks@.len() {
        Some(c.tracks@[ii])
    } else {
        None
    }
}

/// Whether `r` is exactly `Some(b)` when `b` is set, else `None`.
pub open spec fn same_state_but_nav(a: BrowseState, b: BrowseState) -> bool {
    &&& a.category == b.category
    &&& a.track_details == b.track_details
    &&& a.track_pane_focused == b.track_pane_focused
    &&& a.track_pane_index == b.track_pane_index
    &&& a.selected_album_title == b.selected_album_title
    &&& a.auto_drill_pending == b.auto_drill_pending
}

fn clone_opt_string(o: &Option<String>) -> (r: Option<String>)
    ensures
        r == *o,
{
    match o {
        Some(s) => Some(s.clone()),
        None => None,
    }
}

/// A copy of a track.
pub fn clone_track(t: &TrackInfo) -> (r: TrackInfo)
    ensures
        r == *t,
{
    TrackInfo {
        rating_key: t.rating_key.clone(),
        title: t.title.clone(),
        artist_name: t.artist_name.clone(),
        album_name: t.album_name.clone(),
        artist_key: clone_opt_string(&t.artist_key),
        album_key: clone_opt_string(&t.album_key),
    }
}

/// What a drill opens, row by row: a genre's albums (by the genre's key),
/// an artist's albums, a playlist's tracks, an album's tracks (a genre
/// album's tracks in the Genres category), and a genre category's genres;
/// every command carries the clicked row's own key, and one command is
/// sent.
pub proof fn lemma_drill_opens_the_row(r: Seq<Action>, item: BrowseItem, category: BrowseCategory, track: Option<TrackInfo>)
    requires
        drill_ok(r, item, category, track),
    ensures
        item matches BrowseItem::Genre { key, .. } ==> (r.len() == 1 && (r[0] matches Action::LoadGenreAlbumsForMiller { genre_key } && genre_key == key)),
        item matches BrowseItem::Artist { key, .. } ==> (r.len() == 1 && (r[0] matches Action::LoadArtistAlbumsForMiller { artist_key } && artist_key == key)),
        item matches BrowseItem::Playlist { key, .. } ==> (r.len() == 1 && (r[0] matches Action::LoadPlaylistTracksForMiller { playlist_key } && playlist_key == key)),
        item matches BrowseItem::Album { key, .. } ==> (r.len() == 1 && (if category == BrowseCategory::Genres {
            (r[0] matches Action::LoadGenreTracksForMiller { album_key } && album_key == key)
        } else {
            (r[0] matches Action::LoadAlbumTracksForMiller { album_key } && album_key == key)
        })),
        item matches BrowseItem::GenreCategory { key, .. } ==> (r.len() == 1 && (r[0] matches Action::DrillGenreCategory { category_key } && category_key == key)),
{
}

/// The commands a drill into `item` dispatches (no album grouping).
pub fn drill_actions(item: &BrowseItem, category: BrowseCategory, track: Option<&TrackInfo>) -> (r: Vec<
    Action,
>)
    ensures
        drill_ok(
            r@,
            *item,
            category,
            match track {
                Some(t) => Some(*t),
                None => None,
            },
        ),
{
    match item {
        BrowseItem::Artist { key, .. } => vec![
            Action::LoadArtistAlbumsForMiller { artist_key: key.clone() },
        ],
        BrowseItem::Album { key, .. } => {
            if category == BrowseCategory::Genres {
                vec![Action::LoadGenreTracksForMiller { album_key: key.clone() }]
            } else {
                vec![Action::LoadAlbumTracksForMiller { album_key: key.clone() }]
            }
        },
        BrowseItem::Track { .. } => match track {
            Some(t) => vec![Action::OpenTrackDetails(clone_track(t))],
            None => Vec::new(),
        },
        BrowseItem::Playlist { key, .. } => vec![
            Action::LoadPlaylistTracksForMiller { playlist_key: key.clone() },
        ],
        BrowseItem::Genre { key, .. } => vec![
            Action::LoadGenreAlbumsForMiller { genre_key: key.clone() },
        ],
        BrowseItem::AllTracks { artist_key, artist_name } => {
            if eq_str(artist_key.as_str(), "__all_library__") {
                vec![Action::LoadAllLibraryTracksForMiller]
            } else if eq_str(artist_key.as_str(), "__all_comp__") {
                vec![Action::LoadAllCompilationTracksForMiller]
            } else {
                match strip_prefix(artist_key.as_str(), "__comp_tracks:") {
                    Some(real_key) => vec![
                        Action::LoadCompilationAllTracksForMiller {
                            artist_key: real_key,
                            artist_name: artist_name.clone(),
                        },
                    ],
                    None => vec![
                        Action::LoadArtistAllTracksForMiller { artist_key: artist_key.clone() },
                    ],
                }
            }
        },
        BrowseItem::AllArtists => vec![Action::LoadAllAlbumsForMiller],
        BrowseItem::Compilations => vec![Action::LoadCompilationsForMiller],
        BrowseItem::CompilationTracks { artist_key, artist_name } => vec![
            Action::LoadCompilationAlbumsForMiller {
                artist_key: artist_key.clone(),
                artist_name: artist_name.clone(),
            },
        ],
        BrowseItem::ArtistRadio { artist_key, artist_name } => vec![
            Action::StartPlexRadio { key: artist_key.clone(), title: artist_name.clone() },
        ],
        BrowseItem::GenreCategory { key, .. } => vec![
            Action::DrillGenreCategory { category_key: key.clone() },
        ],
    }
}

/// Resolve a Miller row click: clear the category-column focus, move the
/// cursor and focus to the clicked row, drop stale columns on a plain
/// click, and — when the click drills — return the commands for the row.
///
/// `grouped` is the tracks column the playlist's album grouping yields
/// for the clicked row; it is used (pushed locally, no command) when the
/// category is Playlists, the column is grouped by album and the row is an
/// album.
pub fn miller_click_actions(
    state: &mut BrowseState,
    column_index: usize,
    item_index: usize,
    activate: bool,
    grouped: Option<BrowseColumn>,
) -> (r: Vec<Action>)
    ensures
        !final(state).category_column_focused,
        final(state).category == old(state).category,
        old(state).nav is None ==> {
            &&& r@.len() == 0
            &&& final(state).nav is None
            &&& same_state_but_nav(*final(state), *old(state))
        },
        old(state).nav is Some && column_index >= old(state).nav->0.columns@.len() ==> {
            &&& r@.len() == 0
            &&& final(state).nav == old(state).nav
            &&& same_state_but_nav(*final(state), *old(state))
        },
        old(state).nav is Some && column_index < old(state).nav->0.columns@.len() ==> {
            let o = *old(state);
            let f = *final(state);
            let cols = o.nav->0.columns@;
            let ci = column_index as int;
            let ii = item_index as int;
            let kept = kept_columns(cols, ci, item_index, activate);
            let drills = click_drills(o, cols, ci, activate);
            let item_ok = ii < kept[ci].items@.len();
            let item = kept[ci].items@[ii];
            let grp = drills && item_ok && uses_group(o, kept, ci, ii, grouped);
            &&& f.nav is Some
            &&& f.nav->0.focused_column == column_index
            &&& f.nav->0.columns@ == (if grp {
                kept.push(grouped->0)
            } else {
                kept
            })
            &&& (!drills || !item_ok) ==> r@.len() == 0 && same_state_but_nav(f, o)
            &&& (drills && item_ok) ==> {
                &&& (if grp {
                    r@.len() == 0
                } else {
                    drill_ok(r@, item, o.category, track_at(kept[ci], ii))
                })
                &&& if !activate && !(item is Track) {
                    f.track_details is None && !f.track_pane_focused && f.track_pane_index == 0
                } else {
                    f.track_details == o.track_details && f.track_pane_focused
                        == o.track_pane_focused && f.track_pane_index == o.track_pane_index
                }
                &&& f.selected_album_title == (if item is Album && !grp {
                    item->Album_title
                } else {
                    o.selected_album_title
                })
                &&& f.auto_drill_pending == (o.auto_drill_pending || (!grp && !(item is Track)
                    && !(item is ArtistRadio)))
            }
        },
{
    state.category_column_focused = false;
    let pane_open = state.track_details.is_some();
    let mut nav = match state.nav.take() {
        Some(n) => n,
        None => {
            return Vec::new();
        },
    };
    if column_index >= nav.columns.len() {
        state.nav = Some(nav);
        return Vec::new();
    }
    let ghost cols = nav.columns@;
    let had_child = column_index + 1 < nav.columns.len() || pane_open;
    let mut col = nav.columns.remove(column_index);
    col.selected_index = item_index;
    nav.columns.insert(column_index, col);
    proof {
        assert(nav.columns@ =~= select_in(cols, column_index as int, item_index));
    }
    nav.focused_column = column_index;
    let auto_drill = !activate && had_child;
    if !activate {
        nav.columns.truncate(column_index + 1);
    }
    proof {
        assert(nav.columns@ =~= kept_columns(cols, column_index as int, item_index, activate));
    }
    if !activate && !auto_drill {
        state.nav = Some(nav);
        return Vec::new();
    }
    if item_index >= nav.columns[column_index].items.len() {
        state.nav = Some(nav);
        return Vec::new();
    }
    let category = state.category;
    let use_group = category == BrowseCategory::Playlists && nav.columns[column_index].grouped_by_album
        && grouped.is_some() && match &nav.columns[column_index].items[item_index] {
        BrowseItem::Album { .. } => true,
        _ => false,
    };
    let is_track = match &nav.columns[column_index].items[item_index] {
        BrowseItem::Track { .. } => true,
        _ => false,
    };
    let is_radio = match &nav.columns[column_index].items[item_index] {
        BrowseItem::ArtistRadio { .. } => true,
        _ => false,
    };
    if auto_drill && !is_track {
        state.track_details = None;
        state.track_pane_focused = false;
        state.track_pane_index = 0;
    }
    let actions: Vec<Action>;
    if use_group {
        actions = Vec::new();
        match grouped {
            Some(g) => nav.columns.push(g),
            None => {},
        }
    } else {
        let track = if item_index < nav.columns[column_index].tracks.len() {
            Some(&nav.columns[column_index].tracks[item_index])
        } else {
            None
        };
        actions = drill_actions(&nav.columns[column_index].items[item_index], category, track);
        match &nav.columns[column_index].items[item_index] {
            BrowseItem::Album { title, .. } => {
                state.selected_album_title = title.clone();
            },
            _ => {},
        }
        if !is_track && !is_radio {
            state.auto_drill_pending = true;
        }
    }
    state.nav = Some(nav);
    actions
}

/// Whether a click on album row `ii` of column `col` drills locally into
/// the playlist's album group (no command is sent for it).
pub open spec fn drills_locally(s: BrowseState, col: BrowseColumn, ii: int) -> bool {
    s.category == BrowseCategory::Playlists && col.grouped_by_album && col.items@[ii] is Album
}

/// The commands the terminal front-end emits for a click equivalent to
/// `click` in `state`: when the click drills (it activates, or something
/// is open right of its column) into an existing row, the row's drill
/// commands (see `drill_ok`), except for an album row of a playlist
/// grouped by album, which opens its group locally; otherwise none. The
/// state itself is left alone (`miller_click_actions` applies the click).
pub fn actions_for_click(state: &BrowseState, click: RowClick) -> (r: Vec<Action>)
    ensures
        ({
            let ci = click.column_index as int;
            let ii = click.item_index as int;
            let ok = state.nav is Some && ci < state.nav->0.columns@.len() && ii
                < state.nav->0.columns@[ci].items@.len();
            &&& !ok ==> r@.len() == 0
            &&& ok ==> {
                let cols = state.nav->0.columns@;
                let col = cols[ci];
                let drills = click_drills(*state, cols, ci, click.activate);
                &&& (!drills || drills_locally(*state, col, ii)) ==> r@.len() == 0
                &&& (drills && !drills_locally(*state, col, ii)) ==> drill_ok(
                    r@,
                    col.items@[ii],
                    state.category,
                    track_at(col, ii),
                )
            }
        }),
{
    let nav = match &state.nav {
        Some(n) => n,
        None => {
            return Vec::new();
        },
    };
    let ci = click.column_index;
    let ii = click.item_index;
    if ci >= nav.columns.len() {
        return Vec::new();
    }
    let col = &nav.columns[ci];
    if ii >= col.items.len() {
        return Vec::new();
    }
    let drills = click.activate || ci + 1 < nav.columns.len() || state.track_details.is_some();
    if !drills {
        return Vec::new();
    }
    let item = &col.items[ii];
    let local = state.category == BrowseCategory::Playlists && col.grouped_by_album && match item {
        BrowseItem::Album { .. } => true,
        _ => false,
    };
    if local {
        return Vec::new();
    }
    let track = if ii < col.tracks.len() {
        Some(&col.tracks[ii])
    } else {
        None
    };
    drill_actions(item, state.category, track)
}

/// Whether row `ii` of column `ci` exists and is a track row.
pub open spec fn on_track_row(s: BrowseState, ci: int, ii: int) -> bool {
    &&& s.nav is Some
    &&& 0 <= ci < s.nav->0.columns@.len()
    &&& 0 <= ii < s.nav->0.columns@[ci].items@.len()
    &&& s.nav->0.columns@[ci].items@[ii] is Track
}

/// Whether every column's multi-selection holds each row once.
pub open spec fn selections_wf(s: BrowseState) -> bool {
    s.nav matches Some(n) ==> forall|j: int| 0 <= j < n.columns@.len() ==> (#[trigger] n.columns@[j]).selected_set@.no_duplicates()
}

/// Whether `b` is `a` with only the selection fields (cursor, set, anchor)
/// possibly changed.
pub open spec fn same_rows(a: BrowseColumn, b: BrowseColumn) -> bool {
    a.items == b.items && a.tracks == b.tracks && a.grouped_by_album == b.grouped_by_album
}

/// The press part of a Miller row click. With shift or the toggle key held
/// on a track row the press only edits the column's multi-selection —
/// shift selects the range from the anchor (or the cursor) to the row and
/// keeps the anchor; toggle flips the row and anchors there — moves the
/// cursor and the focus to the row, and is done (`true`). Any other press
/// is a plain click (`false`): the column's multi-selection is cleared and
/// anchored at the row, and the click goes on to `miller_click_actions`.
/// Either way the category column and the track pane lose the focus.
pub fn miller_select_gesture(state: &mut BrowseState, column_index: usize, item_index: usize, shift: bool, toggle: bool) -> (multi: bool)
    requires
        selections_wf(*old(state)),
    ensures
        multi == ((shift || toggle) && on_track_row(*old(state), column_index as int, item_index as int)),
        selections_wf(*final(state)),
        !final(state).category_column_focused,
        !final(state).track_pane_focused,
        final(state).category == old(state).category,
        final(state).track_details == old(state).track_details,
        final(state).track_pane_index == old(state).track_pane_index,
        final(state).selected_album_title == old(state).selected_album_title,
        final(state).auto_drill_pending == old(state).auto_drill_pending,
        (old(state).nav is None || column_index >= old(state).nav->0.columns@.len()) ==> final(state).nav == old(state).nav,
        (old(state).nav is Some && column_index < old(state).nav->0.columns@.len()) ==> {
            let o = old(state).nav->0;
            let f = final(state).nav->0;
            let c = o.columns@[column_index as int];
            let d = f.columns@[column_index as int];
            &&& final(state).nav is Some
            &&& f.columns@.len() == o.columns@.len()
            &&& forall|j: int| 0 <= j < o.columns@.len() && j != column_index ==> f.columns@[j] == o.columns@[j]
            &&& same_rows(c, d)
            &&& multi ==> {
                &&& d.selected_set@.to_set() == (if shift {
                    shift_range(c.selection_anchor, c.selected_index, item_index)
                } else {
                    toggled(c.selected_set@.to_set(), item_index)
                })
                &&& d.selection_anchor == (if shift { c.selection_anchor } else { Some(item_index) })
                &&& d.selected_index == item_index
                &&& f.focused_column == column_index
            }
            &&& !multi ==> {
                &&& d.selected_set@.len() == 0
                &&& d.selection_anchor == Some(item_index)
                &&& d.selected_index == c.selected_index
                &&& f.focused_column == o.focused_column
            }
        },
{
    state.category_column_focused = false;
    state.track_pane_focused = false;
    let mut nav = match state.nav.take() {
        Some(n) => n,
        None => {
            return false;
        },
    };
    if column_index >= nav.columns.len() {
        state.nav = Some(nav);
        return false;
    }
    let ghost cols = nav.columns@;
    let on_track = item_index < nav.columns[column_index].items.len() && match &nav.columns[column_index].items[item_index] {
        BrowseItem::Track { .. } => true,
        _ => false,
    };
    let multi = (shift || toggle) && on_track;
    let mut col = nav.columns.remove(column_index);
    proof {
        assert(cols[column_index as int] == col);
        assert(col.selected_set@.no_duplicates());
    }
    if multi {
        if shift {
            let a = match col.selection_anchor {
                Some(a) => a,
                None => col.selected_index,
            };
            if a <= item_index {
                col.selected_set = range_rows(a, item_index);
            } else {
                col.selected_set = range_rows(item_index, a);
            }
        } else {
            toggle_in(&mut col.selected_set, item_index);
            col.selection_anchor = Some(item_index);
        }
        col.selected_index = item_index;
        nav.focused_column = column_index;
    } else {
        col.selected_set = Vec::new();
        col.selection_anchor = Some(item_index);
    }
    nav.columns.insert(column_index, col);
    proof {
        assert(nav.columns@ =~= cols.update(column_index as int, col));
        assert forall|j: int| 0 <= j < nav.columns@.len() implies (#[trigger] nav.columns@[j]).selected_set@.no_duplicates() by {
            if j != column_index {
                assert(nav.columns@[j] == cols[j]);
            }
        }
    }
    state.nav = Some(nav);
    multi
}

/// After the commands of a plain click ran: when the click drilled (it
/// returned commands, or the core pushed a child column and moved the
/// focus right of the clicked column, `pre_focus` being the focus before
/// the commands), the focus goes back to the clicked column — the mouse,
/// not the drill, decides the focus. Returns whether it drilled.
pub fn refocus_after_drill(state: &mut BrowseState, column_index: usize, had_drill: bool, pre_focus: Option<usize>) -> (drilled: bool)
    ensures
        ({
            let post = match old(state).nav {
                Some(n) => Some(n.focused_column),
                None => None,
            };
            drilled == (had_drill || (pre_focus != post && (post matches Some(i) && i > column_index)))
        }),
        final(state).category == old(state).category,
        final(state).category_column_focused == old(state).category_column_focused,
        final(state).track_details == old(state).track_details,
        final(state).track_pane_focused == old(state).track_pane_focused,
        final(state).track_pane_index == old(state).track_pane_index,
        final(state).selected_album_title == old(state).selected_album_title,
        final(state).auto_drill_pending == old(state).auto_drill_pending,
        old(state).nav is None ==> final(state).nav is None,
        old(state).nav matches Some(n) ==> (final(state).nav matches Some(m) && m.columns == n.columns
            && m.focused_column == (if drilled && column_index < n.columns@.len() {
                column_index
            } else {
                n.focused_column
            })),
{
    let post = match &state.nav {
        Some(n) => Some(n.focused_column),
        None => None,
    };
    let advanced = pre_focus != post && match post {
        Some(i) => i > column_index,
        None => false,
    };
    let drilled = had_drill || advanced;
    if drilled {
        match &mut state.nav {
            Some(n) => {
                if column_index < n.columns.len() {
                    n.focused_column = column_index;
                }
            },
            None => {},
        }
    }
    drilled
}

/// The full track under the cursor of the focused Miller column, when the
/// cursor is on a track row that has one.
pub open spec fn cursor_track(s: BrowseState) -> Option<TrackInfo> {
    match s.nav {
        Some(n) => if n.focused_column < n.columns@.len() {
            let c = n.columns@[n.focused_column as int];
            if c.selected_index < c.items@.len() && c.items@[c.selected_index as int] is Track
                && c.selected_index < c.tracks@.len() {
                Some(c.tracks@[c.selected_index as int])
            } else {
                None
            }
        } else {
            None
        },
        None => None,
    }
}

/// The track whose similar tracks the details pane must fetch: the track
/// under the browse cursor, unless its similar tracks are already held or
/// being fetched (`known` keys).
pub open spec fn pane_fetch_spec(s: BrowseState, view: AppView, known: Seq<String>) -> Option<Seq<char>> {
    if view == AppView::Browse && cursor_track(s) is Some && !(exists|i: int|
        0 <= i < known.len() && (#[trigger] known[i])@ == cursor_track(s)->0.rating_key@) {
        Some(cursor_track(s)->0.rating_key@)
    } else {
        None
    }
}

/// Key of the track whose similar tracks the details pane should fetch
/// now, if any; see `pane_fetch_spec`.
pub fn track_pane_fetch_key(state: &BrowseState, view: AppView, known: &Vec<String>) -> (r: Option<String>)
    ensures
        match r {
            Some(k) => pane_fetch_spec(*state, view, known@) == Some(k@),
            None => pane_fetch_spec(*state, view, known@) is None,
        },
{
    if view != AppView::Browse {
        return None;
    }
    let nav = match &state.nav {
        Some(n) => n,
        None => {
            return None;
        },
    };
    if nav.focused_column >= nav.columns.len() {
        return None;
    }
    let col = &nav.columns[nav.focused_column];
    let sel = col.selected_index;
    if sel >= col.items.len() || sel >= col.tracks.len() {
        return None;
    }
    let is_track = match &col.items[sel] {
        BrowseItem::Track { .. } => true,
        _ => false,
    };
    if !is_track {
        return None;
    }
    let key = col.tracks[sel].rating_key.as_str();
    proof {
        assert(cursor_track(*state) == Some(col.tracks@[sel as int]));
        assert(key@ == cursor_track(*state)->0.rating_key@);
    }
    let mut i: usize = 0;
    while i < known.len()
        invariant
            i <= known@.len(),
            forall|j: int| 0 <= j < i ==> (#[trigger] known@[j])@ != key@,
            view == AppView::Browse,
            cursor_track(*state) is Some,
            key@ == cursor_track(*state)->0.rating_key@,
        decreases known@.len() - i,
    {
        if eq_str(known[i].as_str(), key) {
            proof {
                assert((known@[i as int])@ == key@);
            }
            return None;
        }
        i = i + 1;
    }
    Some(col.tracks[sel].rating_key.clone())
}

/// How a Miller row is drawn: the cursor row of the focused column
/// stands out most, the cursor row of another column less, then the
/// multi-selected rows.
#[derive(PartialEq, Eq, Structural, Clone, Copy, Debug)]
pub enum MillerRowLook {
    FocusedCursor,
    Cursor,
    Multi,
    Plain,
}

/// The look of a Miller row from its flags.
pub open spec fn miller_row_look_spec(is_selected: bool, is_multi: bool, is_focused_column: bool) -> MillerRowLook {
    if is_selected && is_focused_column {
        MillerRowLook::FocusedCursor
    } else if is_selected {
        MillerRowLook::Cursor
    } else if is_multi {
        MillerRowLook::Multi
    } else {
        MillerRowLook::Plain
    }
}

/// The look of a Miller row; see `miller_row_look_spec`.
pub fn miller_row_look(is_selected: bool, is_multi: bool, is_focused_column: bool) -> (r: MillerRowLook)
    ensures
        r == miller_row_look_spec(is_selected, is_multi, is_focused_column),
{
    if is_selected && is_focused_column {
        MillerRowLook::FocusedCursor
    } else if is_selected {
        MillerRowLook::Cursor
    } else if is_multi {
        MillerRowLook::Multi
    } else {
        MillerRowLook::Plain
    }
}

/// The click a Miller row sends: clicking the row under the cursor again
/// activates it (drills or plays); any other row is a plain click.
pub fn row_click(column_index: usize, item_index: usize, is_selected: bool) -> (r: RowClick)
    ensures
        r.column_index == column_index,
        r.item_index == item_index,
        r.activate == is_selected,
{
    RowClick { column_index, item_index, activate: is_selected }
}

/// Code point of the ASCII lower-casing of `c` (other characters unchanged).
pub open spec fn ascii_lower(c: char) -> u32 {
    if 'A' <= c && c <= 'Z' {
        ((c as u32) + 32) as u32
    } else {
        c as u32
    }
}

/// ASCII digit.
pub open spec fn is_digit(c: char) -> bool {
    '0' <= c && c <= '9'
}

/// ASCII letter.
pub open spec fn is_alpha(c: char) -> bool {
    ('a' <= c && c <= 'z') || ('A' <= c && c <= 'Z')
}

/// Whether a sort key belongs to the letter-strip class `target` (a
/// lower-cased code point): `'0'` digits, `'%'` symbols, a letter itself.
pub open spec fn key_in_class(key: Seq<char>, target: u32) -> bool {
    key.len() > 0 && if target == 48 {
        is_digit(key[0])
    } else if target == 37 {
        !is_digit(key[0]) && !is_alpha(key[0])
    } else {
        ascii_lower(key[0]) == target
    }
}

/// Letter classes ignore case: a key that starts with an ASCII letter is
/// in the class of that letter in lower case, whichever case it is
/// written in, and in no other letter's class; a key starting with a
/// digit is in the digits class only, and a key starting with anything
/// else in the symbols class only.
pub proof fn lemma_letter_class_ignores_case(key: Seq<char>, t: u32)
    requires
        key.len() > 0,
    ensures
        'a' <= key[0] && key[0] <= 'z' && 97 <= t <= 122 ==> (key_in_class(key, t) <==> (key[0] as u32) == t),
        'A' <= key[0] && key[0] <= 'Z' && 97 <= t <= 122 ==> (key_in_class(key, t) <==> (key[0] as u32) + 32 == t),
        '0' <= key[0] && key[0] <= '9' ==> (key_in_class(key, 48) && !key_in_class(key, 37) && !(97 <= t <= 122
            && key_in_class(key, t))),
        !(('0' <= key[0] && key[0] <= '9') || ('a' <= key[0] && key[0] <= 'z') || ('A' <= key[0] && key[0] <= 'Z'))
            ==> key_in_class(key, 37) && !key_in_class(key, 48),
{
}

/// Whether the letter-strip button `ch` names a class at all: `0`, `%`
/// or a letter.
pub open spec fn is_strip_class(ch: char) -> bool {
    let t = ascii_lower(ch);
    t == 48 || t == 37 || (97 <= t && t <= 122)
}

fn lower(c: char) -> (r: u32)
    ensures
        r == ascii_lower(c),
{
    let u: u32 = c as u32;
    if 'A' <= c && c <= 'Z' {
        u + 32
    } else {
        u
    }
}

fn first_in_class(key: &str, target: u32) -> (r: bool)
    ensures
        r == key_in_class(key@, target),
{
    let cs = crate::strings::chars_of(key);
    if cs.len() == 0 {
        return false;
    }
    let c = cs[0];
    let digit = '0' <= c && c <= '9';
    let alpha = ('a' <= c && c <= 'z') || ('A' <= c && c <= 'Z');
    if target == 48 {
        digit
    } else if target == 37 {
        !digit && !alpha
    } else {
        lower(c) == target
    }
}

/// The jump characters of the letter strip in ascending order: `%`
/// (symbols), `0` (digits), `a`..`z`, then `文` (every other script).
pub open spec fn strip_chars() -> Seq<char> {
    seq!['%', '0'] + Seq::new(26, |i: int| ((97 + i) as u32) as char) + seq!['\u{6587}']
}

/// The glyph shown for a strip character: letters in capitals, `Ω` for
/// the other-scripts bucket.
pub open spec fn strip_label(c: char) -> char {
    if c == '\u{6587}' {
        '\u{03A9}'
    } else if 'a' <= c && c <= 'z' {
        ((c as u32) - 32) as char
    } else {
        c
    }
}

/// The letter strip top to bottom: (jump character, glyph), reversed
/// when the artists are sorted descending.
pub open spec fn strip_spec(descending: bool) -> Seq<(char, char)> {
    let up = strip_chars().map_values(|c: char| (c, strip_label(c)));
    if descending {
        up.reverse()
    } else {
        up
    }
}

/// The letter strip's buttons; see `strip_spec`.
pub fn alphabet_strip(descending: bool) -> (r: Vec<(char, char)>)
    ensures
        r@ == strip_spec(descending),
{
    let mut up: Vec<(char, char)> = Vec::new();
    up.push(('%', '%'));
    up.push(('0', '0'));
    let mut i: u8 = 0;
    while i < 26
        invariant
            i <= 26,
            up@ =~= (seq!['%', '0'] + Seq::new(i as nat, |k: int| ((97 + k) as u32) as char)).map_values(
                |c: char| (c, strip_label(c)),
            ),
        decreases 26 - i,
    {
        let c = (97 + i) as char;
        let u = (65 + i) as char;
        proof {
            assert(c == ((97 + i) as u32) as char);
            assert(strip_label(c) == u);
        }
        up.push((c, u));
        i = i + 1;
    }
    up.push(('\u{6587}', '\u{03A9}'));
    proof {
        assert(up@ =~= strip_chars().map_values(|c: char| (c, strip_label(c))));
    }
    if !descending {
        return up;
    }
    let mut down: Vec<(char, char)> = Vec::new();
    let n = up.len();
    let mut j: usize = 0;
    while j < n
        invariant
            j <= n,
            n == up@.len(),
            down@ =~= up@.reverse().take(j as int),
        decreases n - j,
    {
        down.push(up[n - 1 - j]);
        j = j + 1;
    }
    proof {
        assert(up@.reverse().take(j as int) =~= up@.reverse());
    }
    down
}

/// A track of the details pane's similar-tracks list, as "Open in
/// Library" reads it.
#[derive(Clone, Debug)]
pub struct SimilarTrack {
    /// The artist's key (the track's grandparent), when known.
    pub artist_key: Option<String>,
    /// The artist credited on the track.
    pub track_artist: String,
    pub album_key: Option<String>,
    pub album_title: Option<String>,
}

/// Where a similar track opens in the Library: its artist (by the track's
/// credit) and its album.
pub open spec fn similar_target(s: SimilarTrack) -> LibraryTarget {
    LibraryTarget {
        artist_key: s.artist_key->0,
        artist_name: s.track_artist,
        album_key: s.album_key,
        album_title: s.album_title,
    }
}

/// What a click on row `pane_index` of the details pane opens: the
/// similar track of that row (row `k` lists similar track `k - 1`), when
/// the row was already highlighted in the focused pane and the track has
/// an artist key.
pub open spec fn similar_click_result(s: BrowseState, pane_index: usize, similar: Seq<SimilarTrack>) -> Option<
    LibraryTarget,
> {
    let was = s.track_pane_focused && s.track_pane_index == pane_index;
    let si: int = if pane_index > 0 { pane_index - 1 } else { 0 };
    if was && si < similar.len() && similar[si].artist_key is Some {
        Some(similar_target(similar[si]))
    } else {
        None
    }
}

/// The state after that click: the category column loses the focus; the
/// pane is focused on the clicked row, or, when the click opened a track,
/// unfocused and back at its first row.
pub open spec fn similar_click_state(s: BrowseState, pane_index: usize, similar: Seq<SimilarTrack>) -> BrowseState {
    let opened = similar_click_result(s, pane_index, similar) is Some;
    BrowseState {
        category_column_focused: false,
        track_pane_focused: !opened,
        track_pane_index: if opened { 0 } else { pane_index },
        ..s
    }
}

/// A click on row `pane_index` of the track-details pane, whose rows
/// after the first list `similar` (the similar tracks of the track in the
/// pane; empty when none are known). The first click highlights the row
/// and gives the pane the focus; a click on the row already highlighted
/// in the focused pane opens its similar track in the Library (returned),
/// when that track has an artist key, and then resets the pane's focus.
pub fn similar_row_click(state: &mut BrowseState, pane_index: usize, similar: &Vec<SimilarTrack>) -> (r: Option<
    LibraryTarget,
>)
    ensures
        r == similar_click_result(*old(state), pane_index, similar@),
        *final(state) == similar_click_state(*old(state), pane_index, similar@),
{
    let was = state.track_pane_focused && state.track_pane_index == pane_index;
    state.track_pane_focused = true;
    state.track_pane_index = pane_index;
    state.category_column_focused = false;
    if !was {
        return None;
    }
    let si = if pane_index > 0 { pane_index - 1 } else { 0 };
    if si >= similar.len() {
        return None;
    }
    let sim = &similar[si];
    match &sim.artist_key {
        Some(k) => {
            state.track_pane_focused = false;
            state.track_pane_index = 0;
            Some(
                LibraryTarget {
                    artist_key: k.clone(),
                    artist_name: sim.track_artist.clone(),
                    album_key: clone_opt_string(&sim.album_key),
                    album_title: clone_opt_string(&sim.album_title),
                },
            )
        },
        None => None,
    }
}

/// A second click on the same row of the details pane opens its similar
/// track: after a click that opened nothing, clicking that row again
/// opens the row's similar track whenever it has an artist key.
pub proof fn lemma_similar_second_click_opens(s: BrowseState, pane_index: usize, similar: Seq<SimilarTrack>)
    requires
        similar_click_result(s, pane_index, similar) is None,
    ensures
        ({
            let si: int = if pane_index > 0 { pane_index - 1 } else { 0 };
            similar_click_result(similar_click_state(s, pane_index, similar), pane_index, similar) == (if si
                < similar.len() && similar[si].artist_key is Some {
                Some(similar_target(similar[si]))
            } else {
                None
            })
        }),
{
}

/// The key a row is found by: that of an artist, album, track, playlist,
/// genre or genre-category row. The synthetic rows (all tracks, all
/// artists, compilations, radio) have none.
pub open spec fn row_key(item: BrowseItem) -> Option<Seq<char>> {
    match item {
        BrowseItem::Artist { key, .. } => Some(key@),
        BrowseItem::Album { key, .. } => Some(key@),
        BrowseItem::Track { key, .. } => Some(key@),
        BrowseItem::Playlist { key, .. } => Some(key@),
        BrowseItem::Genre { key, .. } => Some(key@),
        BrowseItem::GenreCategory { key, .. } => Some(key@),
        _ => None,
    }
}

/// Whether `i` is the first row of `items` with key `key`.
pub open spec fn first_keyed(items: Seq<BrowseItem>, key: Seq<char>, i: int) -> bool {
    &&& 0 <= i < items.len()
    &&& row_key(items[i]) == Some(key)
    &&& forall|j: int| 0 <= j < i ==> row_key(#[trigger] items[j]) != Some(key)
}

fn key_matches(item: &BrowseItem, key: &str) -> (r: bool)
    ensures
        r == (row_key(*item) == Some(key@)),
{
    match item {
        BrowseItem::Artist { key: k, .. } => eq_str(k.as_str(), key),
        BrowseItem::Album { key: k, .. } => eq_str(k.as_str(), key),
        BrowseItem::Track { key: k, .. } => eq_str(k.as_str(), key),
        BrowseItem::Playlist { key: k, .. } => eq_str(k.as_str(), key),
        BrowseItem::Genre { key: k, .. } => eq_str(k.as_str(), key),
        BrowseItem::GenreCategory { key: k, .. } => eq_str(k.as_str(), key),
        _ => false,
    }
}

/// Jump a navigation back to its root column: the cursor of the root
/// column moves to the first row with key `key` (it stays where it was
/// when no row has that key), the root takes the focus, and every column
/// right of it is dropped, ready for the drill that follows.
pub fn focus_root_row(nav: &mut MillerNav, key: &str)
    ensures
        final(nav).focused_column == 0,
        old(nav).columns@.len() == 0 ==> final(nav).columns@.len() == 0,
        old(nav).columns@.len() > 0 ==> ({
            let c = old(nav).columns@[0];
            let d = final(nav).columns@[0];
            &&& final(nav).columns@.len() == 1
            &&& same_rows(c, d)
            &&& d.selected_set == c.selected_set
            &&& d.selection_anchor == c.selection_anchor
            &&& (exists|i: int| 0 <= i < c.items@.len() && row_key(#[trigger] c.items@[i]) == Some(key@))
                ==> first_keyed(c.items@, key@, d.selected_index as int)
            &&& !(exists|i: int| 0 <= i < c.items@.len() && row_key(#[trigger] c.items@[i]) == Some(key@))
                ==> d.selected_index == c.selected_index
        }),
{
    nav.focused_column = 0;
    if nav.columns.len() == 0 {
        return;
    }
    nav.columns.truncate(1);
    let mut col = nav.columns.remove(0);
    let ghost c = col;
    let n = col.items.len();
    let mut pos: Option<usize> = None;
    let mut i: usize = 0;
    while i < n
        invariant
            i <= n,
            n == c.items@.len(),
            col == c,
            pos is None ==> forall|j: int| 0 <= j < i ==> row_key(#[trigger] c.items@[j]) != Some(key@),
            pos matches Some(p) ==> first_keyed(c.items@, key@, p as int),
        decreases n - i,
    {
        if pos.is_none() && key_matches(&col.items[i], key) {
            pos = Some(i);
        }
        i = i + 1;
    }
    match pos {
        Some(p) => {
            col.selected_index = p;
        },
        None => {},
    }
    nav.columns.insert(0, col);
}

/// The paging state of a playlist column that loads its tracks a page at
/// a time: the playlist's key, its track count when known, and whether a
/// page is on its way.
#[derive(Clone, Debug)]
pub struct LazyPages {
    pub key: String,
    pub total: Option<u32>,
    pub loading: bool,
}

/// Whether scrolling a paged playlist column near its bottom (`near_bottom`,
/// with `loaded` tracks in it) asks for the next page: when tracks remain
/// (all do while the count is unknown) and no page is on its way. The page
/// starts after the loaded tracks.
pub fn load_more_request(loaded: usize, lazy: &LazyPages, near_bottom: bool) -> (r: Option<Action>)
    ensures
        ({
            let already = loaded as u32;
            let total: u32 = match lazy.total {
                Some(t) => t,
                None => u32::MAX,
            };
            r == (if already < total && near_bottom && !lazy.loading {
                Some(Action::LoadMorePlaylistTracks { playlist_key: lazy.key, offset: already })
            } else {
                None
            })
        }),
{
    let already = loaded as u32;
    let total: u32 = match lazy.total {
        Some(t) => t,
        None => u32::MAX,
    };
    if already < total && near_bottom && !lazy.loading {
        Some(Action::LoadMorePlaylistTracks { playlist_key: lazy.key.clone(), offset: already })
    } else {
        None
    }
}

/// Whether the browse category is Folders (whose navigation is the
/// folder navigation, not a Miller navigation of browse rows).
pub fn state_browse_category_is_folders(state: &BrowseState) -> (r: bool)
    ensures
        r == (state.category == BrowseCategory::Folders),
{
    state.category == BrowseCategory::Folders
}

/// The focus step of a column's close button, before the core closes the
/// focused column. The details pane's button (`None`) only clears the
/// pane and its focus, and nothing is closed (`false`). A column's button
/// first focuses that column, in the folder navigation for the Folders
/// category, when the column exists, and takes the focus from the
/// category column; the focused column is then to be closed (`true`).
pub fn close_column_focus(state: &mut BrowseState, folders: &mut Option<FolderNav>, column_index: Option<usize>) -> (close:
    bool)
    ensures
        close == (column_index is Some),
        column_index is None ==> ({
            &&& final(state).track_details is None
            &&& !final(state).track_pane_focused
            &&& final(state).track_pane_index == 0
            &&& final(state).nav == old(state).nav
            &&& final(state).category_column_focused == old(state).category_column_focused
            &&& *final(folders) == *old(folders)
        }),
        column_index matches Some(idx) ==> ({
            &&& !final(state).category_column_focused
            &&& final(state).track_details == old(state).track_details
            &&& final(state).track_pane_focused == old(state).track_pane_focused
            &&& final(state).track_pane_index == old(state).track_pane_index
            &&& if old(state).category == BrowseCategory::Folders {
                &&& final(state).nav == old(state).nav
                &&& (*old(folders) is None) ==> *final(folders) is None
                &&& (*old(folders) matches Some(f) ==> (*final(folders) matches Some(g) && g.columns == f.columns
                    && g.focused_column == (if idx < f.columns@.len() { idx } else { f.focused_column })))
            } else {
                &&& *final(folders) == *old(folders)
                &&& (old(state).nav is None) ==> final(state).nav is None
                &&& (old(state).nav matches Some(n) ==> (final(state).nav matches Some(m) && m.columns == n.columns
                    && m.focused_column == (if idx < n.columns@.len() { idx } else { n.focused_column })))
            }
        }),
        final(state).category == old(state).category,
        final(state).selected_album_title == old(state).selected_album_title,
        final(state).auto_drill_pending == old(state).auto_drill_pending,
{
    match column_index {
        None => {
            state.track_details = None;
            state.track_pane_focused = false;
            state.track_pane_index = 0;
            false
        },
        Some(idx) => {
            if state_browse_category_is_folders(state) {
                match folders {
                    Some(f) => {
                        if idx < f.columns.len() {
                            f.focused_column = idx;
                        }
                    },
                    None => {},
                }
            } else {
                match &mut state.nav {
                    Some(n) => {
                        if idx < n.columns.len() {
                            n.focused_column = idx;
                        }
                    },
                    None => {},
                }
            }
            state.category_column_focused = false;
            true
        },
    }
}

/// Row of the root browse column that the letter strip jumps to: the
/// first whose sort key (`sort_keys`, one per root row) falls in the
/// class of `ch`. `None` in the Folders category, without a root column,
/// for a character that names no class, or when no row matches.
pub fn alphabet_target_index(state: &BrowseState, sort_keys: &Vec<String>, ch: char) -> (r: Option<
    usize,
>)
    ensures
        match r {
            Some(i) => {
                &&& state.category != BrowseCategory::Folders
                &&& state.nav is Some && state.nav->0.columns@.len() > 0
                &&& is_strip_class(ch)
                &&& i < sort_keys@.len()
                &&& key_in_class(sort_keys@[i as int]@, ascii_lower(ch))
                &&& forall|k: int| 0 <= k < i ==> !key_in_class(#[trigger] sort_keys@[k]@, ascii_lower(ch))
            },
            None => state.category == BrowseCategory::Folders || !is_strip_class(ch) || state.nav is None
                || state.nav->0.columns@.len() == 0 || forall|k: int|
                0 <= k < sort_keys@.len() ==> !key_in_class(#[trigger] sort_keys@[k]@, ascii_lower(ch)),
        },
{
    if state.category == BrowseCategory::Folders {
        return None;
    }
    let target = lower(ch);
    if !(target == 48 || target == 37 || (97 <= target && target <= 122)) {
        return None;
    }
    match &state.nav {
        Some(nav) => {
            if nav.columns.len() == 0 {
                return None;
            }
        },
        None => {
            return None;
        },
    }
    let mut i: usize = 0;
    while i < sort_keys.len()
        invariant
            i <= sort_keys@.len(),
            target == ascii_lower(ch),
            is_strip_class(ch),
            state.category != BrowseCategory::Folders,
            state.nav is Some && state.nav->0.columns@.len() > 0,
            forall|k: int| 0 <= k < i ==> !key_in_class(#[trigger] sort_keys@[k]@, target),
        decreases sort_keys@.len() - i,
    {
        if first_in_class(sort_keys[i].as_str(), target) {
            return Some(i);
        }
        i = i + 1;
    }
    None
}

/// The artist named by the first album row of `items` whose key is
/// `key`, or the empty name when there is none.
pub open spec fn album_artist_in(items: Seq<BrowseItem>, key: Seq<char>) -> Seq<char>
    decreases items.len(),
{
    if items.len() == 0 {
        Seq::<char>::empty()
    } else {
        match items[0] {
            BrowseItem::Album { key: k, artist, .. } => if k@ == key {
                artist@
            } else {
                album_artist_in(items.drop_first(), key)
            },
            _ => album_artist_in(items.drop_first(), key),
        }
    }
}

/// The rows of the focused column of the active navigation.
pub open spec fn focused_items(s: BrowseState) -> Seq<BrowseItem> {
    if s.nav is Some && s.nav->0.focused_column < s.nav->0.columns@.len() {
        s.nav->0.columns@[s.nav->0.focused_column as int].items@
    } else {
        Seq::<BrowseItem>::empty()
    }
}

fn album_artist(items: &Vec<BrowseItem>, album_key: &str) -> (r: String)
    ensures
        r@ == album_artist_in(items@, album_key@),
{
    let mut i: usize = 0;
    proof {
        assert(items@.skip(0) =~= items@);
    }
    while i < items.len()
        invariant
            i <= items@.len(),
            album_artist_in(items@, album_key@) == album_artist_in(items@.skip(i as int), album_key@),
        decreases items@.len() - i,
    {
        proof {
            assert(items@.skip(i as int).drop_first() =~= items@.skip(i as int + 1));
            assert(items@.skip(i as int)[0] == items@[i as int]);
        }
        match &items[i] {
            BrowseItem::Album { key, artist, .. } => {
                if eq_str(key.as_str(), album_key) {
                    return artist.clone();
                }
            },
            _ => {},
        }
        i = i + 1;
    }
    crate::strings::empty_string()
}

/// "Open in Library" target of an album row: the artist named by the
/// focused column's album row with key `album_key`, looked up by exact
/// name among the library's artists. `None` when no such row names an
/// artist or no library artist has that name.
pub fn open_in_library_for_album(
    state: &BrowseState,
    artists: &Vec<LibraryArtist>,
    album_key: &str,
    album_title: &str,
) -> (r: Option<LibraryTarget>)
    ensures
        ({
            let name = album_artist_in(focused_items(*state), album_key@);
            match r {
                Some(t) => name.len() > 0 && exists|j: int|
                    0 <= j < artists@.len() && artists@[j].title@ == name && (forall|k: int|
                        0 <= k < j ==> (#[trigger] artists@[k]).title@ != name) && t.artist_key
                        == artists@[j].rating_key && t.artist_name == artists@[j].title
                        && crate::browse::opt_view(t.album_key) == Some(album_key@)
                        && crate::browse::opt_view(t.album_title) == Some(album_title@),
                None => name.len() == 0 || forall|k: int|
                    0 <= k < artists@.len() ==> (#[trigger] artists@[k]).title@ != name,
            }
        }),
{
    let artist_name = match &state.nav {
        Some(nav) => {
            if nav.focused_column < nav.columns.len() {
                album_artist(&nav.columns[nav.focused_column].items, album_key)
            } else {
                crate::strings::empty_string()
            }
        },
        None => crate::strings::empty_string(),
    };
    if artist_name.as_str().is_empty() {
        return None;
    }
    let mut j: usize = 0;
    while j < artists.len()
        invariant
            j <= artists@.len(),
            artist_name@ == album_artist_in(focused_items(*state), album_key@),
            artist_name@.len() > 0,
            forall|k: int| 0 <= k < j ==> (#[trigger] artists@[k]).title@ != artist_name@,
        decreases artists@.len() - j,
    {
        if artists[j].title == artist_name {
            let mut key = crate::strings::empty_string();
            crate::strings::push_str(&mut key, album_key);
            let mut title = crate::strings::empty_string();
            crate::strings::push_str(&mut title, album_title);
            proof {
                assert(key@ =~= album_key@);
                assert(title@ =~= album_title@);
                assert(artists@[j as int].title@ == artist_name@);
            }
            return Some(
                LibraryTarget {
                    artist_key: artists[j].rating_key.clone(),
                    artist_name: artists[j].title.clone(),
                    album_key: Some(key),
                    album_title: Some(title),
                },
            );
        }
        j = j + 1;
    }
    None
}

} // verus!
