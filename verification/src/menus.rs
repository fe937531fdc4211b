//! Contents of the pull-down menus: each menu's items with their shortcut
//! hints and when each is enabled, the sort column type the View menu's
//! sort entries follow, and the native menu's numeric item ids.

use vstd::prelude::*;
use crate::action::{Action, AppView, ColumnSortMode, DjMode, SearchTarget};
use crate::ansi::parse_uint;
use crate::browse::{BrowseCategory, BrowseItem};
use crate::menu_bar::TopMenu;
use crate::nav::KeyCodeLite;
use crate::transport::PlayStatus;

verus! {

/// Modifier of a synthetic key press.
#[derive(PartialEq, Eq, Structural, Clone, Copy, Debug)]
pub enum KeyMods {
    NoMods,
    Control,
    Alt,
}

/// A key press a menu item replays through the shared key map.
#[derive(PartialEq, Eq, Structural, Clone, Copy, Debug)]
pub struct SyntheticKey {
    pub code: KeyCodeLite,
    pub mods: KeyMods,
}

/// What a menu item sends.
#[derive(Clone, Debug)]
pub enum MenuMessage {
    ShowAbout,
    Action(Action),
    KeyClick(SyntheticKey),
    ToggleCoverArt,
    OpenStationsPopup,
    OpenCommandPalette,
    OpenUserGuide,
    OpenKeyboardShortcuts,
}

/// Label of a menu entry: fixed text, or the name of a DJ mode.
#[derive(Clone, Copy, Debug)]
pub enum MenuLabel {
    Text(&'static str),
    DjModeName(DjMode),
}

/// One row of a dropdown.
#[derive(Clone, Debug)]
pub enum MenuItem {
    Sep,
    Entry { label: MenuLabel, shortcut: &'static str, action: Action, enabled: bool },
    KeyEntry { label: &'static str, shortcut: &'static str, key: SyntheticKey, enabled: bool },
    About,
    CoverArtToggle,
    UserGuide,
    KeyboardShortcuts,
    Custom { label: &'static str, shortcut: &'static str, message: MenuMessage, enabled: bool },
}

/// The desktop platform, for the conventional Quit shortcut.
#[derive(PartialEq, Eq, Structural, Clone, Copy, Debug)]
pub enum Platform {
    MacOs,
    Windows,
    Other,
}

/// What kind of rows the focused column holds, for sorting.
#[derive(PartialEq, Eq, Structural, Clone, Copy, Debug)]
pub enum SortColumnType {
    Artist,
    Album,
    AllTracks,
    Track,
}

/// The state the menus read.
#[derive(Clone, Debug)]
pub struct MenuContext {
    pub connected: bool,
    pub has_track: bool,
    pub status: PlayStatus,
    pub queue_len: usize,
    pub radio_len: usize,
    /// Whether a library is active.
    pub active_library: bool,
    pub library_count: usize,
    pub server_count: usize,
    pub view: AppView,
    pub category: BrowseCategory,
    /// The sort modes of the focused column's type; `None` when the
    /// focused column has no sortable type.
    pub sort_modes: Option<Vec<ColumnSortMode>>,
    /// Whether the focused playlist column is grouped by album.
    pub playlist_focused_grouped: bool,
    /// Whether a shuffle can be undone.
    pub shuffle_undo_available: bool,
    pub platform: Platform,
}

/// A synthetic `F<n>` press.
pub fn function_key(n: u8) -> (k: SyntheticKey)
    ensures
        k == (SyntheticKey { code: KeyCodeLite::F(n), mods: KeyMods::NoMods }),
{
    SyntheticKey { code: KeyCodeLite::F(n), mods: KeyMods::NoMods }
}

/// A synthetic `Ctrl+<c>` press (the menu's Cmd on macOS).
pub fn ctrl_char_key(c: char) -> (k: SyntheticKey)
    ensures
        k == (SyntheticKey { code: KeyCodeLite::Char(c), mods: KeyMods::Control }),
{
    SyntheticKey { code: KeyCodeLite::Char(c), mods: KeyMods::Control }
}

/// A synthetic `Alt+<c>` press.
pub fn alt_char_key(c: char) -> (k: SyntheticKey)
    ensures
        k == (SyntheticKey { code: KeyCodeLite::Char(c), mods: KeyMods::Alt }),
{
    SyntheticKey { code: KeyCodeLite::Char(c), mods: KeyMods::Alt }
}

/// An enabled or disabled action entry.
pub open spec fn ent(label: &'static str, shortcut: &'static str, action: Action, enabled: bool) -> MenuItem {
    MenuItem::Entry { label: MenuLabel::Text(label), shortcut, action, enabled }
}

/// A key-replaying entry.
pub open spec fn kent(label: &'static str, shortcut: &'static str, key: SyntheticKey, enabled: bool) -> MenuItem {
    MenuItem::KeyEntry { label, shortcut, key, enabled }
}

/// Whether something is playing or paused.
pub open spec fn is_playing(c: MenuContext) -> bool {
    c.status == PlayStatus::Playing || c.status == PlayStatus::Paused
}

/// Whether the queue or the radio has tracks.
pub open spec fn any_playable(c: MenuContext) -> bool {
    c.queue_len > 0 || c.radio_len > 0
}

/// Whether a library is active on a connected server.
pub open spec fn has_active_library(c: MenuContext) -> bool {
    c.active_library && c.connected
}

/// Whether there is another library or server to switch to.
pub open spec fn has_multiple_libs(c: MenuContext) -> bool {
    c.library_count > 1 || (c.connected && c.server_count > 1)
}

/// Whether a browse selection can be queued.
pub open spec fn can_enqueue(c: MenuContext) -> bool {
    c.connected && (c.view == AppView::Browse || c.view == AppView::Search)
}

/// Whether the focused column supports sort mode `m`.
pub open spec fn sort_available(c: MenuContext, m: ColumnSortMode) -> bool {
    c.sort_modes is Some && c.sort_modes->0@.contains(m)
}

/// The Quit shortcut hint of the platform.
pub open spec fn quit_shortcut(p: Platform) -> &'static str {
    match p {
        Platform::MacOs => "Cmd+Q",
        Platform::Windows => "Alt+F4",
        Platform::Other => "Ctrl+Q",
    }
}

/// The File menu.
pub open spec fn file_items(c: MenuContext) -> Seq<MenuItem> {
    seq![
        MenuItem::About,
        MenuItem::Sep,
        ent("Settings\u{2026}", "F2", Action::SetView(AppView::Settings), true),
        ent("Switch Library\u{2026}", "F3", Action::OpenLibraryPicker, has_multiple_libs(c)),
        ent("Sign Out", "", Action::Logout, c.connected),
        MenuItem::Sep,
        ent("Quit", quit_shortcut(c.platform), Action::Quit, true),
    ]
}

/// The View menu.
pub open spec fn view_items(c: MenuContext) -> Seq<MenuItem> {
    let in_playlists = c.category == BrowseCategory::Playlists;
    let grouped = in_playlists && c.playlist_focused_grouped;
    seq![
        ent("Browse", "", Action::SetView(AppView::Browse), true),
        ent("Queue", "Ctrl+U", Action::SetView(AppView::Queue), true),
        ent("Now Playing", "Ctrl+N", Action::SetView(AppView::NowPlaying), true),
        MenuItem::Sep,
        ent("Library", "Ctrl+L", Action::SetCategory(BrowseCategory::Library), c.connected),
        ent("Playlists", "Ctrl+P", Action::SetCategory(BrowseCategory::Playlists), c.connected),
        ent("Genres", "Ctrl+G", Action::SetCategory(BrowseCategory::Genres), c.connected),
        ent("Folders", "Ctrl+O", Action::SetCategory(BrowseCategory::Folders), c.connected),
        MenuItem::Sep,
        kent("Similar Albums\u{2026}", "Ctrl+M", SyntheticKey { code: KeyCodeLite::Char('m'), mods: KeyMods::Control }, c.connected),
        kent("Related Artists\u{2026}", "Ctrl+R", SyntheticKey { code: KeyCodeLite::Char('r'), mods: KeyMods::Control }, c.connected),
        kent("Open in Library", "Ctrl+J", SyntheticKey { code: KeyCodeLite::Char('j'), mods: KeyMods::Control }, c.connected),
        kent("Artist Bio", "F4", SyntheticKey { code: KeyCodeLite::F(4), mods: KeyMods::NoMods }, c.connected),
        MenuItem::Sep,
        ent("Sort: Default", "", Action::ApplyFocusedSortMode(ColumnSortMode::Default), sort_available(c, ColumnSortMode::Default)),
        ent("Sort: By Artist", "", Action::ApplyFocusedSortMode(ColumnSortMode::ByArtist), sort_available(c, ColumnSortMode::ByArtist)),
        ent("Sort: By Album", "", Action::ApplyFocusedSortMode(ColumnSortMode::ByAlbum), sort_available(c, ColumnSortMode::ByAlbum)),
        ent("Sort: By Title", "", Action::ApplyFocusedSortMode(ColumnSortMode::ByTitle), sort_available(c, ColumnSortMode::ByTitle)),
        ent("Sort: By Duration", "", Action::ApplyFocusedSortMode(ColumnSortMode::ByDuration), sort_available(c, ColumnSortMode::ByDuration)),
        ent("Sort: Shuffle", "", Action::ApplyFocusedSortMode(ColumnSortMode::Shuffled), sort_available(c, ColumnSortMode::Shuffled)),
        MenuItem::Sep,
        ent("Reverse Sort Direction", "", Action::ReverseFocusedSortDirection, c.sort_modes is Some),
        ent(if grouped { "Group by Track" } else { "Group by Album" }, "", Action::ToggleFocusedColumnGrouping, in_playlists),
        MenuItem::Sep,
        MenuItem::CoverArtToggle,
    ]
}

/// The Playback menu.
pub open spec fn playback_items(c: MenuContext) -> Seq<MenuItem> {
    seq![
        ent("Play / Pause", "Space", Action::TogglePlayPause, c.has_track),
        ent("Stop", "", Action::Stop, is_playing(c)),
        MenuItem::Sep,
        ent("Previous Track", "", Action::Previous, any_playable(c)),
        ent("Next Track", "", Action::Next, any_playable(c)),
        MenuItem::Sep,
        ent("Seek Back 10s", "Shift+\u{2190}", Action::SeekRelative(-10000i64), c.has_track),
        ent("Seek Forward 10s", "Shift+\u{2192}", Action::SeekRelative(10000i64), c.has_track),
        MenuItem::Sep,
        ent("Volume Up", "Ctrl+Shift+\u{2191}", Action::VolumeUp, true),
        ent("Volume Down", "Ctrl+Shift+\u{2193}", Action::VolumeDown, true),
        ent("Mute / Unmute", "", Action::ToggleMute, true),
    ]
}

/// A DJ-mode entry.
pub open spec fn dj_ent(m: DjMode, enabled: bool) -> MenuItem {
    MenuItem::Entry { label: MenuLabel::DjModeName(m), shortcut: "", action: Action::ToggleDjMode(m), enabled }
}

/// The Queue menu.
pub open spec fn queue_items(c: MenuContext) -> Seq<MenuItem> {
    let q = c.queue_len > 0;
    seq![
        ent("Add to end of queue", "Cmd+E", Action::EnqueueSelection, can_enqueue(c)),
        ent("Play next in queue", "Cmd+Shift+E", Action::EnqueueSelectionNext, can_enqueue(c)),
        MenuItem::Sep,
        ent("Save queue as playlist\u{2026}", "Cmd+S", Action::PromptSavePlaylist, any_playable(c)),
        ent("Clear Queue", "Cmd+X", Action::ClearQueue, any_playable(c)),
        ent("Shuffle", "", Action::ToggleQueueShuffle, any_playable(c)),
        MenuItem::Sep,
        dj_ent(DjMode::Stretch, q),
        dj_ent(DjMode::Gemini, q),
        dj_ent(DjMode::Freeze, q),
        dj_ent(DjMode::Twofer, q),
        dj_ent(DjMode::Contempo, q),
        dj_ent(DjMode::Groupie, q),
        MenuItem::Sep,
        ent("Remix: Gemini", "", Action::RemixGemini, q),
        ent("Remix: Twofer", "", Action::RemixTwofer, q),
        ent("Remix: Stretch", "", Action::RemixStretch, q),
        ent("Remix: Doppelganger", "", Action::RemixDoppelganger, q),
        ent("Remix: Shuffle", "", Action::RemixShuffle, q),
        ent("Remix: Undo Shuffle", "", Action::RemixUndoShuffle, q && c.shuffle_undo_available),
    ]
}

/// The Radio menu.
pub open spec fn radio_items(c: MenuContext) -> Seq<MenuItem> {
    seq![
        ent("Artist Radio\u{2026}", "", Action::OpenArtistRadioPicker, has_active_library(c)),
        ent("Adventure\u{2026}", "", Action::OpenAdventureLauncher, has_active_library(c)),
        MenuItem::Sep,
        MenuItem::Custom {
            label: "Stations\u{2026}",
            shortcut: "",
            message: MenuMessage::OpenStationsPopup,
            enabled: has_active_library(c),
        },
    ]
}

/// An external-search entry.
pub open spec fn search_ent(label: &'static str, t: SearchTarget, enabled: bool) -> MenuItem {
    ent(label, "", Action::OpenExternalSearch { target: t, query: None }, enabled)
}

/// The Tools menu.
pub open spec fn tools_items(c: MenuContext) -> Seq<MenuItem> {
    seq![
        ent("Search\u{2026}", "Cmd+F", Action::OpenSearchPopup, c.connected),
        kent("Random Album", "Alt+R", SyntheticKey { code: KeyCodeLite::Char('r'), mods: KeyMods::Alt }, has_active_library(c)),
        MenuItem::Sep,
        search_ent("Search Apple Music\u{2026}", SearchTarget::AppleMusic, c.connected),
        search_ent("Search Spotify\u{2026}", SearchTarget::Spotify, c.connected),
        search_ent("Search YouTube\u{2026}", SearchTarget::YouTube, c.connected),
        MenuItem::Sep,
        kent("Refresh", "F5", SyntheticKey { code: KeyCodeLite::F(5), mods: KeyMods::NoMods }, c.connected),
    ]
}

/// The items of `menu`.
pub open spec fn items_spec(menu: TopMenu, c: MenuContext) -> Seq<MenuItem> {
    match menu {
        TopMenu::File => file_items(c),
        TopMenu::View => view_items(c),
        TopMenu::Playback => playback_items(c),
        TopMenu::Queue => queue_items(c),
        TopMenu::Radio => radio_items(c),
        TopMenu::Tools => tools_items(c),
        TopMenu::Help => seq![MenuItem::UserGuide, MenuItem::KeyboardShortcuts],
    }
}

fn mode_in(modes: &Option<Vec<ColumnSortMode>>, m: ColumnSortMode) -> (r: bool)
    ensures
        r == (modes is Some && modes->0@.contains(m)),
{
    match modes {
        Some(v) => {
            let mut i: usize = 0;
            while i < v.len()
                invariant
                    i <= v@.len(),
                    *modes == Some(*v),
                    forall|k: int| 0 <= k < i ==> v@[k] != m,
                decreases v@.len() - i,
            {
                if v[i] == m {
                    proof {
                        assert(v@.contains(v@[i as int]));
                    }
                    return true;
                }
                i = i + 1;
            }
            false
        },
        None => false,
    }
}

fn e(label: &'static str, shortcut: &'static str, action: Action, enabled: bool) -> (r: MenuItem)
    ensures
        r == ent(label, shortcut, action, enabled),
{
    MenuItem::Entry { label: MenuLabel::Text(label), shortcut, action, enabled }
}

fn k(label: &'static str, shortcut: &'static str, key: SyntheticKey, enabled: bool) -> (r: MenuItem)
    ensures
        r == kent(label, shortcut, key, enabled),
{
    MenuItem::KeyEntry { label, shortcut, key, enabled }
}

fn dj(m: DjMode, enabled: bool) -> (r: MenuItem)
    ensures
        r == dj_ent(m, enabled),
{
    MenuItem::Entry { label: MenuLabel::DjModeName(m), shortcut: "", action: Action::ToggleDjMode(m), enabled }
}

fn ext(label: &'static str, t: SearchTarget, enabled: bool) -> (r: MenuItem)
    ensures
        r == search_ent(label, t, enabled),
{
    e(label, "", Action::OpenExternalSearch { target: t, query: None }, enabled)
}

/// The items of the dropdown of `menu` for the state `c`, each enabled
/// only when it can act: transport rows need a track, queue tools a
/// non-empty queue, library tools a connection, sort rows a focused
/// column type that supports the mode.
pub fn items_for(menu: TopMenu, c: &MenuContext) -> (r: Vec<MenuItem>)
    ensures
        r@ == items_spec(menu, *c),
{
    let connected = c.connected;
    let has_track = c.has_track;
    let playing = c.status == PlayStatus::Playing || c.status == PlayStatus::Paused;
    let q = c.queue_len > 0;
    let playable = c.queue_len > 0 || c.radio_len > 0;
    let active_lib = c.active_library && c.connected;
    let multi = c.library_count > 1 || (c.connected && c.server_count > 1);
    let enqueue = c.connected && (c.view == AppView::Browse || c.view == AppView::Search);
    let r = match menu {
        TopMenu::File => {
            let quit = match c.platform {
                Platform::MacOs => "Cmd+Q",
                Platform::Windows => "Alt+F4",
                Platform::Other => "Ctrl+Q",
            };
            vec![
                MenuItem::About,
                MenuItem::Sep,
                e("Settings\u{2026}", "F2", Action::SetView(AppView::Settings), true),
                e("Switch Library\u{2026}", "F3", Action::OpenLibraryPicker, multi),
                e("Sign Out", "", Action::Logout, connected),
                MenuItem::Sep,
                e("Quit", quit, Action::Quit, true),
            ]
        },
        TopMenu::View => {
            let in_playlists = c.category == BrowseCategory::Playlists;
            let grouped = in_playlists && c.playlist_focused_grouped;
            let group_label = if grouped { "Group by Track" } else { "Group by Album" };
            vec![
                e("Browse", "", Action::SetView(AppView::Browse), true),
                e("Queue", "Ctrl+U", Action::SetView(AppView::Queue), true),
                e("Now Playing", "Ctrl+N", Action::SetView(AppView::NowPlaying), true),
                MenuItem::Sep,
                e("Library", "Ctrl+L", Action::SetCategory(BrowseCategory::Library), connected),
                e("Playlists", "Ctrl+P", Action::SetCategory(BrowseCategory::Playlists), connected),
                e("Genres", "Ctrl+G", Action::SetCategory(BrowseCategory::Genres), connected),
                e("Folders", "Ctrl+O", Action::SetCategory(BrowseCategory::Folders), connected),
                MenuItem::Sep,
                k("Similar Albums\u{2026}", "Ctrl+M", ctrl_char_key('m'), connected),
                k("Related Artists\u{2026}", "Ctrl+R", ctrl_char_key('r'), connected),
                k("Open in Library", "Ctrl+J", ctrl_char_key('j'), connected),
                k("Artist Bio", "F4", function_key(4), connected),
                MenuItem::Sep,
                e("Sort: Default", "", Action::ApplyFocusedSortMode(ColumnSortMode::Default), mode_in(&c.sort_modes, ColumnSortMode::Default)),
                e("Sort: By Artist", "", Action::ApplyFocusedSortMode(ColumnSortMode::ByArtist), mode_in(&c.sort_modes, ColumnSortMode::ByArtist)),
                e("Sort: By Album", "", Action::ApplyFocusedSortMode(ColumnSortMode::ByAlbum), mode_in(&c.sort_modes, ColumnSortMode::ByAlbum)),
                e("Sort: By Title", "", Action::ApplyFocusedSortMode(ColumnSortMode::ByTitle), mode_in(&c.sort_modes, ColumnSortMode::ByTitle)),
                e("Sort: By Duration", "", Action::ApplyFocusedSortMode(ColumnSortMode::ByDuration), mode_in(&c.sort_modes, ColumnSortMode::ByDuration)),
                e("Sort: Shuffle", "", Action::ApplyFocusedSortMode(ColumnSortMode::Shuffled), mode_in(&c.sort_modes, ColumnSortMode::Shuffled)),
                MenuItem::Sep,
                e("Reverse Sort Direction", "", Action::ReverseFocusedSortDirection, c.sort_modes.is_some()),
                e(group_label, "", Action::ToggleFocusedColumnGrouping, in_playlists),
                MenuItem::Sep,
                MenuItem::CoverArtToggle,
            ]
        },
        TopMenu::Playback => vec![
            e("Play / Pause", "Space", Action::TogglePlayPause, has_track),
            e("Stop", "", Action::Stop, playing),
            MenuItem::Sep,
            e("Previous Track", "", Action::Previous, playable),
            e("Next Track", "", Action::Next, playable),
            MenuItem::Sep,
            e("Seek Back 10s", "Shift+\u{2190}", Action::SeekRelative(-10000), has_track),
            e("Seek Forward 10s", "Shift+\u{2192}", Action::SeekRelative(10000), has_track),
            MenuItem::Sep,
            e("Volume Up", "Ctrl+Shift+\u{2191}", Action::VolumeUp, true),
            e("Volume Down", "Ctrl+Shift+\u{2193}", Action::VolumeDown, true),
            e("Mute / Unmute", "", Action::ToggleMute, true),
        ],
        TopMenu::Queue => vec![
            e("Add to end of queue", "Cmd+E", Action::EnqueueSelection, enqueue),
            e("Play next in queue", "Cmd+Shift+E", Action::EnqueueSelectionNext, enqueue),
            MenuItem::Sep,
            e("Save queue as playlist\u{2026}", "Cmd+S", Action::PromptSavePlaylist, playable),
            e("Clear Queue", "Cmd+X", Action::ClearQueue, playable),
            e("Shuffle", "", Action::ToggleQueueShuffle, playable),
            MenuItem::Sep,
            dj(DjMode::Stretch, q),
            dj(DjMode::Gemini, q),
            dj(DjMode::Freeze, q),
            dj(DjMode::Twofer, q),
            dj(DjMode::Contempo, q),
            dj(DjMode::Groupie, q),
            MenuItem::Sep,
            e("Remix: Gemini", "", Action::RemixGemini, q),
            e("Remix: Twofer", "", Action::RemixTwofer, q),
            e("Remix: Stretch", "", Action::RemixStretch, q),
            e("Remix: Doppelganger", "", Action::RemixDoppelganger, q),
            e("Remix: Shuffle", "", Action::RemixShuffle, q),
            e("Remix: Undo Shuffle", "", Action::RemixUndoShuffle, q && c.shuffle_undo_available),
        ],
        TopMenu::Radio => vec![
            e("Artist Radio\u{2026}", "", Action::OpenArtistRadioPicker, active_lib),
            e("Adventure\u{2026}", "", Action::OpenAdventureLauncher, active_lib),
            MenuItem::Sep,
            MenuItem::Custom {
                label: "Stations\u{2026}",
                shortcut: "",
                message: MenuMessage::OpenStationsPopup,
                enabled: active_lib,
            },
        ],
        TopMenu::Tools => vec![
            e("Search\u{2026}", "Cmd+F", Action::OpenSearchPopup, connected),
            k("Random Album", "Alt+R", alt_char_key('r'), active_lib),
            MenuItem::Sep,
            ext("Search Apple Music\u{2026}", SearchTarget::AppleMusic, connected),
            ext("Search Spotify\u{2026}", SearchTarget::Spotify, connected),
            ext("Search YouTube\u{2026}", SearchTarget::YouTube, connected),
            MenuItem::Sep,
            k("Refresh", "F5", function_key(5), connected),
        ],
        TopMenu::Help => vec![MenuItem::UserGuide, MenuItem::KeyboardShortcuts],
    };
    proof {
        assert(r@ =~= items_spec(menu, *c));
    }
    r
}

/// The rows of a dropdown that are entries, and those that are separators.
pub open spec fn count_kinds(items: Seq<MenuItem>) -> (nat, nat)
    decreases items.len(),
{
    if items.len() == 0 {
        (0, 0)
    } else {
        let rest = count_kinds(items.drop_last());
        if items.last() is Sep {
            (rest.0, rest.1 + 1)
        } else {
            (rest.0 + 1, rest.1)
        }
    }
}

/// Count the entry rows and the separator rows of a dropdown (they have
/// different heights).
pub fn dropdown_counts(items: &Vec<MenuItem>) -> (r: (usize, usize))
    ensures
        (r.0 as nat, r.1 as nat) == count_kinds(items@),
{
    let mut entries: usize = 0;
    let mut seps: usize = 0;
    let mut i: usize = 0;
    while i < items.len()
        invariant
            i <= items@.len(),
            entries + seps == i,
            (entries as nat, seps as nat) == count_kinds(items@.take(i as int)),
        decreases items@.len() - i,
    {
        proof {
            assert(items@.take(i as int + 1).drop_last() =~= items@.take(i as int));
        }
        match &items[i] {
            MenuItem::Sep => {
                seps = seps + 1;
            },
            _ => {
                entries = entries + 1;
            },
        }
        i = i + 1;
    }
    proof {
        assert(items@.take(i as int) =~= items@);
    }
    (entries, seps)
}

/// How the sort column type of the focused browse column is recognised:
/// artists if the column starts with one or has one among its first three
/// rows; albums likewise within the first four; tracks if it starts with
/// one (the "all tracks" kind for special track columns); nothing otherwise.
pub open spec fn sort_type_spec(items: Seq<BrowseItem>, special_track_column: bool) -> Option<SortColumnType> {
    if exists|i: int| 0 <= i < 3 && i < items.len() && (#[trigger] items[i]) is Artist {
        Some(SortColumnType::Artist)
    } else if exists|i: int| 0 <= i < 4 && i < items.len() && (#[trigger] items[i]) is Album {
        Some(SortColumnType::Album)
    } else if items.len() > 0 && items[0] is Track {
        if special_track_column {
            Some(SortColumnType::AllTracks)
        } else {
            Some(SortColumnType::Track)
        }
    } else {
        None
    }
}

fn any_kind_in_first(items: &Vec<BrowseItem>, n: usize, artist: bool) -> (r: bool)
    ensures
        r == exists|i: int| 0 <= i < n && i < items@.len() && (if artist {
            (#[trigger] items@[i]) is Artist
        } else {
            items@[i] is Album
        }),
{
    let mut i: usize = 0;
    while i < n && i < items.len()
        invariant
            i <= n,
            forall|j: int| 0 <= j < i && j < items@.len() ==> !(if artist {
                (#[trigger] items@[j]) is Artist
            } else {
                items@[j] is Album
            }),
        decreases n - i,
    {
        let hit = match &items[i] {
            BrowseItem::Artist { .. } => artist,
            BrowseItem::Album { .. } => !artist,
            _ => false,
        };
        if hit {
            return true;
        }
        i = i + 1;
    }
    false
}

/// The sort column type of the focused column of the browse view (`None`
/// outside the browse view or without a focused column).
pub fn focused_sort_column_type(view: AppView, focused: Option<&Vec<BrowseItem>>, special_track_column: bool) -> (r:
    Option<SortColumnType>)
    ensures
        r == (if view != AppView::Browse {
            None
        } else {
            match focused {
                Some(items) => sort_type_spec(items@, special_track_column),
                None => None,
            }
        }),
{
    if view != AppView::Browse {
        return None;
    }
    let items = match focused {
        Some(items) => items,
        None => {
            return None;
        },
    };
    if any_kind_in_first(items, 3, true) {
        Some(SortColumnType::Artist)
    } else if any_kind_in_first(items, 4, false) {
        Some(SortColumnType::Album)
    } else if items.len() > 0 && match &items[0] {
        BrowseItem::Track { .. } => true,
        _ => false,
    } {
        if special_track_column {
            Some(SortColumnType::AllTracks)
        } else {
            Some(SortColumnType::Track)
        }
    } else {
        None
    }
}

/// Native menu item id.
pub const FILE_ABOUT: u32 = 1000;
/// Native menu item id.
pub const FILE_SETTINGS: u32 = 1001;
/// Native menu item id.
pub const FILE_SWITCH_LIBRARY: u32 = 1002;
/// Native menu item id.
pub const FILE_SIGN_OUT: u32 = 1003;
/// Native menu item id.
pub const FILE_QUIT: u32 = 1004;
/// Native menu item id.
pub const VIEW_BROWSE: u32 = 2000;
/// Native menu item id.
pub const VIEW_QUEUE: u32 = 2001;
/// Native menu item id.
pub const VIEW_NOW_PLAYING: u32 = 2002;
/// Native menu item id.
pub const VIEW_LIBRARY: u32 = 2003;
/// Native menu item id.
pub const VIEW_PLAYLISTS: u32 = 2004;
/// Native menu item id.
pub const VIEW_GENRES: u32 = 2005;
/// Native menu item id.
pub const VIEW_FOLDERS: u32 = 2006;
/// Native menu item id.
pub const VIEW_SIMILAR: u32 = 2007;
/// Native menu item id.
pub const VIEW_RELATED: u32 = 2008;
/// Native menu item id.
pub const VIEW_OPEN_IN_LIBRARY: u32 = 2009;
/// Native menu item id.
pub const VIEW_ARTIST_BIO: u32 = 2010;
/// Native menu item id.
pub const VIEW_SORT_DEFAULT: u32 = 2011;
/// Native menu item id.
pub const VIEW_SORT_ARTIST: u32 = 2012;
/// Native menu item id.
pub const VIEW_SORT_ALBUM: u32 = 2013;
/// Native menu item id.
pub const VIEW_SORT_TITLE: u32 = 2014;
/// Native menu item id.
pub const VIEW_SORT_DURATION: u32 = 2015;
/// Native menu item id.
pub const VIEW_SORT_SHUFFLE: u32 = 2016;
/// Native menu item id.
pub const VIEW_REVERSE_SORT: u32 = 2017;
/// Native menu item id.
pub const VIEW_GROUP_BY_ALBUM: u32 = 2018;
/// Native menu item id.
pub const VIEW_TOGGLE_COVER_ART: u32 = 2019;
/// Native menu item id.
pub const VIEW_SCROLLING_LAYOUT: u32 = 2020;
/// Native menu item id.
pub const VIEW_TALL_MODE: u32 = 2021;
/// Native menu item id.
pub const PB_PLAY_PAUSE: u32 = 3000;
/// Native menu item id.
pub const PB_STOP: u32 = 3001;
/// Native menu item id.
pub const PB_PREV: u32 = 3002;
/// Native menu item id.
pub const PB_NEXT: u32 = 3003;
/// Native menu item id.
pub const PB_SEEK_BACK: u32 = 3004;
/// Native menu item id.
pub const PB_SEEK_FWD: u32 = 3005;
/// Native menu item id.
pub const PB_VOL_UP: u32 = 3006;
/// Native menu item id.
pub const PB_VOL_DOWN: u32 = 3007;
/// Native menu item id.
pub const PB_MUTE: u32 = 3008;
/// Native menu item id.
pub const Q_ENQUEUE: u32 = 4000;
/// Native menu item id.
pub const Q_ENQUEUE_NEXT: u32 = 4001;
/// Native menu item id.
pub const Q_SAVE: u32 = 4002;
/// Native menu item id.
pub const Q_CLEAR: u32 = 4003;
/// Native menu item id.
pub const Q_SHUFFLE: u32 = 4004;
/// Native menu item id.
pub const Q_DJ_STRETCH: u32 = 4100;
/// Native menu item id.
pub const Q_DJ_GEMINI: u32 = 4101;
/// Native menu item id.
pub const Q_DJ_FREEZE: u32 = 4102;
/// Native menu item id.
pub const Q_DJ_TWOFER: u32 = 4103;
/// Native menu item id.
pub const Q_DJ_CONTEMPO: u32 = 4104;
/// Native menu item id.
pub const Q_DJ_GROUPIE: u32 = 4105;
/// Native menu item id.
pub const Q_REMIX_GEMINI: u32 = 4200;
/// Native menu item id.
pub const Q_REMIX_TWOFER: u32 = 4201;
/// Native menu item id.
pub const Q_REMIX_STRETCH: u32 = 4202;
/// Native menu item id.
pub const Q_REMIX_DOPPELGANGER: u32 = 4203;
/// Native menu item id.
pub const Q_REMIX_SHUFFLE: u32 = 4204;
/// Native menu item id.
pub const Q_REMIX_UNDO_SHUFFLE: u32 = 4205;
/// Native menu item id.
pub const RADIO_ARTIST: u32 = 7000;
/// Native menu item id.
pub const RADIO_ADVENTURE: u32 = 7001;
/// Native menu item id.
pub const RADIO_STATIONS: u32 = 7003;
/// Native menu item id.
pub const TOOLS_SEARCH: u32 = 5000;
/// Native menu item id.
pub const TOOLS_ADVENTURE: u32 = 5001;
/// Native menu item id.
pub const TOOLS_ARTIST_RADIO: u32 = 5002;
/// Native menu item id.
pub const TOOLS_RANDOM_ALBUM: u32 = 5003;
/// Native menu item id.
pub const TOOLS_REFRESH: u32 = 5004;
/// Native menu item id.
pub const TOOLS_SEARCH_APPLE: u32 = 5005;
/// Native menu item id.
pub const TOOLS_SEARCH_SPOTIFY: u32 = 5006;
/// Native menu item id.
pub const TOOLS_SEARCH_YOUTUBE: u32 = 5007;
/// Native menu item id.
pub const TOOLS_PALETTE: u32 = 5008;
/// Native menu item id.
pub const HELP_USER_GUIDE: u32 = 6000;
/// Native menu item id.
pub const HELP_SHORTCUTS: u32 = 6001;

/// What the native menu item with id `id` sends.
pub open spec fn menu_message_spec(id: u32) -> Option<MenuMessage> {
    match id {
        1000 => Some(MenuMessage::ShowAbout),
        1001 => Some(MenuMessage::Action(Action::SetView(AppView::Settings))),
        1002 => Some(MenuMessage::Action(Action::OpenLibraryPicker)),
        1003 => Some(MenuMessage::Action(Action::Logout)),
        1004 => Some(MenuMessage::Action(Action::Quit)),
        2000 => Some(MenuMessage::Action(Action::SetView(AppView::Browse))),
        2001 => Some(MenuMessage::Action(Action::SetView(AppView::Queue))),
        2002 => Some(MenuMessage::Action(Action::SetView(AppView::NowPlaying))),
        2003 => Some(MenuMessage::Action(Action::SetCategory(BrowseCategory::Library))),
        2004 => Some(MenuMessage::Action(Action::SetCategory(BrowseCategory::Playlists))),
        2005 => Some(MenuMessage::Action(Action::SetCategory(BrowseCategory::AlbumGenres))),
        2006 => Some(MenuMessage::Action(Action::SetCategory(BrowseCategory::Folders))),
        2007 => Some(MenuMessage::KeyClick(SyntheticKey { code: KeyCodeLite::Char('m'), mods: KeyMods::Control })),
        2008 => Some(MenuMessage::KeyClick(SyntheticKey { code: KeyCodeLite::Char('r'), mods: KeyMods::Control })),
        2009 => Some(MenuMessage::KeyClick(SyntheticKey { code: KeyCodeLite::Char('j'), mods: KeyMods::Control })),
        2010 => Some(MenuMessage::KeyClick(SyntheticKey { code: KeyCodeLite::F(4), mods: KeyMods::NoMods })),
        2011 => Some(MenuMessage::Action(Action::ApplyFocusedSortMode(ColumnSortMode::Default))),
        2012 => Some(MenuMessage::Action(Action::ApplyFocusedSortMode(ColumnSortMode::ByArtist))),
        2013 => Some(MenuMessage::Action(Action::ApplyFocusedSortMode(ColumnSortMode::ByAlbum))),
        2014 => Some(MenuMessage::Action(Action::ApplyFocusedSortMode(ColumnSortMode::ByTitle))),
        2015 => Some(MenuMessage::Action(Action::ApplyFocusedSortMode(ColumnSortMode::ByDuration))),
        2016 => Some(MenuMessage::Action(Action::ApplyFocusedSortMode(ColumnSortMode::Shuffled))),
        2017 => Some(MenuMessage::Action(Action::ReverseFocusedSortDirection)),
        2018 => Some(MenuMessage::Action(Action::ToggleFocusedColumnGrouping)),
        2019 => Some(MenuMessage::ToggleCoverArt),
        2020 => Some(MenuMessage::Action(Action::ToggleMillerLayout)),
        2021 => Some(MenuMessage::Action(Action::ToggleTallMode)),
        3000 => Some(MenuMessage::Action(Action::TogglePlayPause)),
        3001 => Some(MenuMessage::Action(Action::Stop)),
        3002 => Some(MenuMessage::Action(Action::Previous)),
        3003 => Some(MenuMessage::Action(Action::Next)),
        3004 => Some(MenuMessage::Action(Action::SeekRelative(-10000i64))),
        3005 => Some(MenuMessage::Action(Action::SeekRelative(10000i64))),
        3006 => Some(MenuMessage::Action(Action::VolumeUp)),
        3007 => Some(MenuMessage::Action(Action::VolumeDown)),
        3008 => Some(MenuMessage::Action(Action::ToggleMute)),
        4000 => Some(MenuMessage::Action(Action::EnqueueSelection)),
        4001 => Some(MenuMessage::Action(Action::EnqueueSelectionNext)),
        4002 => Some(MenuMessage::Action(Action::PromptSavePlaylist)),
        4003 => Some(MenuMessage::Action(Action::ClearQueue)),
        4004 => Some(MenuMessage::Action(Action::ToggleQueueShuffle)),
        4100 => Some(MenuMessage::Action(Action::ToggleDjMode(DjMode::Stretch))),
        4101 => Some(MenuMessage::Action(Action::ToggleDjMode(DjMode::Gemini))),
        4102 => Some(MenuMessage::Action(Action::ToggleDjMode(DjMode::Freeze))),
        4103 => Some(MenuMessage::Action(Action::ToggleDjMode(DjMode::Twofer))),
        4104 => Some(MenuMessage::Action(Action::ToggleDjMode(DjMode::Contempo))),
        4105 => Some(MenuMessage::Action(Action::ToggleDjMode(DjMode::Groupie))),
        4200 => Some(MenuMessage::Action(Action::RemixGemini)),
        4201 => Some(MenuMessage::Action(Action::RemixTwofer)),
        4202 => Some(MenuMessage::Action(Action::RemixStretch)),
        4203 => Some(MenuMessage::Action(Action::RemixDoppelganger)),
        4204 => Some(MenuMessage::Action(Action::RemixShuffle)),
        4205 => Some(MenuMessage::Action(Action::RemixUndoShuffle)),
        7000 => Some(MenuMessage::Action(Action::OpenArtistRadioPicker)),
        7001 => Some(MenuMessage::Action(Action::OpenAdventureLauncher)),
        7003 => Some(MenuMessage::OpenStationsPopup),
        5000 => Some(MenuMessage::Action(Action::OpenSearchPopup)),
        5001 => Some(MenuMessage::Action(Action::OpenAdventureLauncher)),
        5002 => Some(MenuMessage::Action(Action::OpenArtistRadioPicker)),
        5003 => Some(MenuMessage::KeyClick(SyntheticKey { code: KeyCodeLite::Char('r'), mods: KeyMods::Alt })),
        5004 => Some(MenuMessage::KeyClick(SyntheticKey { code: KeyCodeLite::F(5), mods: KeyMods::NoMods })),
        5005 => Some(MenuMessage::Action(Action::OpenExternalSearch { target: SearchTarget::AppleMusic, query: None })),
        5006 => Some(MenuMessage::Action(Action::OpenExternalSearch { target: SearchTarget::Spotify, query: None })),
        5007 => Some(MenuMessage::Action(Action::OpenExternalSearch { target: SearchTarget::YouTube, query: None })),
        5008 => Some(MenuMessage::OpenCommandPalette),
        6000 => Some(MenuMessage::OpenUserGuide),
        6001 => Some(MenuMessage::OpenKeyboardShortcuts),
        _ => None,
    }
}

/// The message for a native menu click: the item id is the decimal
/// string `id`; unknown or unparsable ids send nothing.
pub fn menu_event_for_id(id: &str) -> (r: Option<MenuMessage>)
    ensures
        r == (match parse_uint(id@, u32::MAX as nat) {
            Some(n) => menu_message_spec(n as u32),
            None => None,
        }),
{
    let cs = crate::strings::chars_of(id);
    let n = match crate::ansi::parse_number(&cs, u32::MAX) {
        Some(n) => n,
        None => {
            return None;
        },
    };
    let msg = match n {
        1000 => MenuMessage::ShowAbout,
        1001 => MenuMessage::Action(Action::SetView(AppView::Settings)),
        1002 => MenuMessage::Action(Action::OpenLibraryPicker),
        1003 => MenuMessage::Action(Action::Logout),
        1004 => MenuMessage::Action(Action::Quit),
        2000 => MenuMessage::Action(Action::SetView(AppView::Browse)),
        2001 => MenuMessage::Action(Action::SetView(AppView::Queue)),
        2002 => MenuMessage::Action(Action::SetView(AppView::NowPlaying)),
        2003 => MenuMessage::Action(Action::SetCategory(BrowseCategory::Library)),
        2004 => MenuMessage::Action(Action::SetCategory(BrowseCategory::Playlists)),
        2005 => MenuMessage::Action(Action::SetCategory(BrowseCategory::AlbumGenres)),
        2006 => MenuMessage::Action(Action::SetCategory(BrowseCategory::Folders)),
        2007 => MenuMessage::KeyClick(ctrl_char_key('m')),
        2008 => MenuMessage::KeyClick(ctrl_char_key('r')),
        2009 => MenuMessage::KeyClick(ctrl_char_key('j')),
        2010 => MenuMessage::KeyClick(function_key(4)),
        2011 => MenuMessage::Action(Action::ApplyFocusedSortMode(ColumnSortMode::Default)),
        2012 => MenuMessage::Action(Action::ApplyFocusedSortMode(ColumnSortMode::ByArtist)),
        2013 => MenuMessage::Action(Action::ApplyFocusedSortMode(ColumnSortMode::ByAlbum)),
        2014 => MenuMessage::Action(Action::ApplyFocusedSortMode(ColumnSortMode::ByTitle)),
        2015 => MenuMessage::Action(Action::ApplyFocusedSortMode(ColumnSortMode::ByDuration)),
        2016 => MenuMessage::Action(Action::ApplyFocusedSortMode(ColumnSortMode::Shuffled)),
        2017 => MenuMessage::Action(Action::ReverseFocusedSortDirection),
        2018 => MenuMessage::Action(Action::ToggleFocusedColumnGrouping),
        2019 => MenuMessage::ToggleCoverArt,
        2020 => MenuMessage::Action(Action::ToggleMillerLayout),
        2021 => MenuMessage::Action(Action::ToggleTallMode),
        3000 => MenuMessage::Action(Action::TogglePlayPause),
        3001 => MenuMessage::Action(Action::Stop),
        3002 => MenuMessage::Action(Action::Previous),
        3003 => MenuMessage::Action(Action::Next),
        3004 => MenuMessage::Action(Action::SeekRelative(-10000i64)),
        3005 => MenuMessage::Action(Action::SeekRelative(10000i64)),
        3006 => MenuMessage::Action(Action::VolumeUp),
        3007 => MenuMessage::Action(Action::VolumeDown),
        3008 => MenuMessage::Action(Action::ToggleMute),
        4000 => MenuMessage::Action(Action::EnqueueSelection),
        4001 => MenuMessage::Action(Action::EnqueueSelectionNext),
        4002 => MenuMessage::Action(Action::PromptSavePlaylist),
        4003 => MenuMessage::Action(Action::ClearQueue),
        4004 => MenuMessage::Action(Action::ToggleQueueShuffle),
        4100 => MenuMessage::Action(Action::ToggleDjMode(DjMode::Stretch)),
        4101 => MenuMessage::Action(Action::ToggleDjMode(DjMode::Gemini)),
        4102 => MenuMessage::Action(Action::ToggleDjMode(DjMode::Freeze)),
        4103 => MenuMessage::Action(Action::ToggleDjMode(DjMode::Twofer)),
        4104 => MenuMessage::Action(Action::ToggleDjMode(DjMode::Contempo)),
        4105 => MenuMessage::Action(Action::ToggleDjMode(DjMode::Groupie)),
        4200 => MenuMessage::Action(Action::RemixGemini),
        4201 => MenuMessage::Action(Action::RemixTwofer),
        4202 => MenuMessage::Action(Action::RemixStretch),
        4203 => MenuMessage::Action(Action::RemixDoppelganger),
        4204 => MenuMessage::Action(Action::RemixShuffle),
        4205 => MenuMessage::Action(Action::RemixUndoShuffle),
        7000 => MenuMessage::Action(Action::OpenArtistRadioPicker),
        7001 => MenuMessage::Action(Action::OpenAdventureLauncher),
        7003 => MenuMessage::OpenStationsPopup,
        5000 => MenuMessage::Action(Action::OpenSearchPopup),
        5001 => MenuMessage::Action(Action::OpenAdventureLauncher),
        5002 => MenuMessage::Action(Action::OpenArtistRadioPicker),
        5003 => MenuMessage::KeyClick(alt_char_key('r')),
        5004 => MenuMessage::KeyClick(function_key(5)),
        5005 => MenuMessage::Action(Action::OpenExternalSearch { target: SearchTarget::AppleMusic, query: None }),
        5006 => MenuMessage::Action(Action::OpenExternalSearch { target: SearchTarget::Spotify, query: None }),
        5007 => MenuMessage::Action(Action::OpenExternalSearch { target: SearchTarget::YouTube, query: None }),
        5008 => MenuMessage::OpenCommandPalette,
        6000 => MenuMessage::OpenUserGuide,
        6001 => MenuMessage::OpenKeyboardShortcuts,
        _ => {
            return None;
        },
    };
    Some(msg)
}

/// What clicking an in-window menu row sends: an entry's command, a key
/// entry's key press, the fixed messages of the About, cover-art, User
/// Guide and shortcuts rows, a custom row's message; nothing for a
/// separator.
pub open spec fn item_message_spec(it: MenuItem) -> Option<MenuMessage> {
    match it {
        MenuItem::Sep => None,
        MenuItem::Entry { action, .. } => Some(MenuMessage::Action(action)),
        MenuItem::KeyEntry { key, .. } => Some(MenuMessage::KeyClick(key)),
        MenuItem::About => Some(MenuMessage::ShowAbout),
        MenuItem::CoverArtToggle => Some(MenuMessage::ToggleCoverArt),
        MenuItem::UserGuide => Some(MenuMessage::OpenUserGuide),
        MenuItem::KeyboardShortcuts => Some(MenuMessage::OpenKeyboardShortcuts),
        MenuItem::Custom { message, .. } => Some(message),
    }
}

/// What clicking the in-window menu row `it` sends; see
/// `item_message_spec`.
pub fn item_message(it: MenuItem) -> (r: Option<MenuMessage>)
    ensures
        r == item_message_spec(it),
{
    match it {
        MenuItem::Sep => None,
        MenuItem::Entry { action, .. } => Some(MenuMessage::Action(action)),
        MenuItem::KeyEntry { key, .. } => Some(MenuMessage::KeyClick(key)),
        MenuItem::About => Some(MenuMessage::ShowAbout),
        MenuItem::CoverArtToggle => Some(MenuMessage::ToggleCoverArt),
        MenuItem::UserGuide => Some(MenuMessage::OpenUserGuide),
        MenuItem::KeyboardShortcuts => Some(MenuMessage::OpenKeyboardShortcuts),
        MenuItem::Custom { message, .. } => Some(message),
    }
}

/// The native menu's item ids for the rows of the in-window menu `menu`,
/// row by row (`None` for a separator). The native menus list the same
/// rows; their own extra entries (the command palette opening Tools, the
/// layout toggles closing View) have no in-window row.
pub open spec fn native_ids(menu: TopMenu) -> Seq<Option<u32>> {
    match menu {
        TopMenu::File => seq![Some(1000u32), None, Some(1001u32), Some(1002u32), Some(1003u32), None, Some(1004u32)],
        TopMenu::View => seq![
            Some(2000u32), Some(2001u32), Some(2002u32), None,
            Some(2003u32), Some(2004u32), Some(2005u32), Some(2006u32), None,
            Some(2007u32), Some(2008u32), Some(2009u32), Some(2010u32), None,
            Some(2011u32), Some(2012u32), Some(2013u32), Some(2014u32), Some(2015u32), Some(2016u32), None,
            Some(2017u32), Some(2018u32), None,
            Some(2019u32),
        ],
        TopMenu::Playback => seq![
            Some(3000u32), Some(3001u32), None, Some(3002u32), Some(3003u32), None,
            Some(3004u32), Some(3005u32), None, Some(3006u32), Some(3007u32), Some(3008u32),
        ],
        TopMenu::Queue => seq![
            Some(4000u32), Some(4001u32), None, Some(4002u32), Some(4003u32), Some(4004u32), None,
            Some(4100u32), Some(4101u32), Some(4102u32), Some(4103u32), Some(4104u32), Some(4105u32), None,
            Some(4200u32), Some(4201u32), Some(4202u32), Some(4203u32), Some(4204u32), Some(4205u32),
        ],
        TopMenu::Radio => seq![Some(7000u32), Some(7001u32), None, Some(7003u32)],
        TopMenu::Tools => seq![
            Some(5000u32), Some(5003u32), None, Some(5005u32), Some(5006u32), Some(5007u32), None, Some(5004u32),
        ],
        TopMenu::Help => seq![Some(6000u32), Some(6001u32)],
    }
}

/// Whether row `k` of the in-window menu `menu` sends what its native
/// counterpart sends (and both are separators or neither is).
pub open spec fn row_in_lockstep(menu: TopMenu, c: MenuContext, k: int) -> bool {
    match native_ids(menu)[k] {
        Some(id) => item_message_spec(items_spec(menu, c)[k]) == menu_message_spec(id),
        None => items_spec(menu, c)[k] is Sep,
    }
}

/// The native menu bar mirrors the in-window menus row for row: each
/// in-window row has a native counterpart (the same number of rows, in
/// the same order) that sends the same message, with one exception: View
/// → Genres (row 6), which opens the genres category in the window but
/// the album-genres category from the native menu.
pub proof fn lemma_native_menu_mirrors(menu: TopMenu, c: MenuContext, k: int)
    requires
        0 <= k < items_spec(menu, c).len(),
        !(menu == TopMenu::View && k == 6),
    ensures
        native_ids(menu).len() == items_spec(menu, c).len(),
        row_in_lockstep(menu, c, k),
{
    match menu {
        TopMenu::View => {
            let items = items_spec(menu, c);
            let ids = native_ids(menu);
            assert(ids.len() == items.len());
            if k < 9 {
            } else if k < 14 {
            } else if k < 21 {
            } else {
            }
        },
        _ => {},
    }
}

} // verus!
