use textamp::action::{Action, AppView, ColumnSortMode, DjMode};
use textamp::browse::{BrowseCategory, BrowseItem};
use textamp::menu_bar::{dropdown_panel_height, TopMenu, BTN_GAP};
use textamp::menus::{
    item_message,
    alt_char_key, ctrl_char_key, dropdown_counts, focused_sort_column_type, function_key, items_for,
    menu_event_for_id, KeyMods, MenuContext, MenuItem, MenuLabel, MenuMessage, Platform, SortColumnType,
    SyntheticKey,
};
use textamp::nav::KeyCodeLite;
use textamp::transport::PlayStatus;

fn ctx() -> MenuContext {
    MenuContext {
        connected: true,
        has_track: false,
        status: PlayStatus::Stopped,
        queue_len: 0,
        radio_len: 0,
        active_library: true,
        library_count: 1,
        server_count: 1,
        view: AppView::Browse,
        category: BrowseCategory::Library,
        sort_modes: None,
        playlist_focused_grouped: false,
        shuffle_undo_available: false,
        platform: Platform::Other,
    }
}

fn enabled_of(item: &MenuItem) -> Option<bool> {
    match item {
        MenuItem::Entry { enabled, .. } | MenuItem::KeyEntry { enabled, .. } | MenuItem::Custom { enabled, .. } => {
            Some(*enabled)
        }
        _ => None,
    }
}

fn text_label(item: &MenuItem) -> Option<&'static str> {
    match item {
        MenuItem::Entry { label: MenuLabel::Text(t), .. } => Some(t),
        MenuItem::KeyEntry { label, .. } | MenuItem::Custom { label, .. } => Some(label),
        _ => None,
    }
}

#[test]
fn bar_order_labels_and_offsets() {
    let all = TopMenu::all();
    assert_eq!(all.len(), 7);
    assert_eq!(all[0], TopMenu::File);
    assert_eq!(all[6], TopMenu::Help);
    assert_eq!(TopMenu::Playback.label(), "Playback");
    assert_eq!(TopMenu::Queue.index(), 3);
    assert_eq!(TopMenu::File.x_offset(), 0);
    assert_eq!(TopMenu::View.x_offset(), 52);
    assert_eq!(TopMenu::Playback.x_offset(), 108);
    assert_eq!(TopMenu::Help.x_offset(), 372);
    for w in all.windows(2) {
        assert_eq!(w[1].x_offset(), w[0].x_offset() + w[0].button_width() + BTN_GAP);
    }
}

#[test]
fn panel_height_caps_and_scrolls() {
    assert_eq!(dropdown_panel_height(19, 6), (506, false));
    assert_eq!(dropdown_panel_height(0, 0), (8, false));
    assert_eq!(dropdown_panel_height(30, 2), (560, true));
}

#[test]
fn dropdown_counts_per_menu() {
    let c = ctx();
    let expect = [
        (TopMenu::File, 5, 2),
        (TopMenu::View, 20, 5),
        (TopMenu::Playback, 9, 3),
        (TopMenu::Queue, 17, 3),
        (TopMenu::Radio, 3, 1),
        (TopMenu::Tools, 6, 2),
        (TopMenu::Help, 2, 0),
    ];
    for (m, entries, seps) in expect {
        assert_eq!(dropdown_counts(&items_for(m, &c)), (entries, seps), "{:?}", m);
    }
}

#[test]
fn playback_items_follow_transport_state() {
    let mut c = ctx();
    let items = items_for(TopMenu::Playback, &c);
    assert_eq!(enabled_of(&items[0]), Some(false));
    assert_eq!(enabled_of(&items[1]), Some(false));
    assert_eq!(enabled_of(&items[3]), Some(false));
    assert_eq!(enabled_of(&items[9]), Some(true));
    c.has_track = true;
    c.status = PlayStatus::Paused;
    c.radio_len = 2;
    let items = items_for(TopMenu::Playback, &c);
    assert_eq!(enabled_of(&items[0]), Some(true));
    assert_eq!(enabled_of(&items[1]), Some(true));
    assert_eq!(enabled_of(&items[3]), Some(true));
    assert!(matches!(&items[6], MenuItem::Entry { action: Action::SeekRelative(-10000), .. }));
}

#[test]
fn file_menu_quit_shortcut_and_switch_library() {
    let mut c = ctx();
    c.platform = Platform::MacOs;
    let items = items_for(TopMenu::File, &c);
    assert!(matches!(&items[0], MenuItem::About));
    assert!(matches!(&items[6], MenuItem::Entry { shortcut: "Cmd+Q", action: Action::Quit, enabled: true, .. }));
    assert_eq!(enabled_of(&items[3]), Some(false));
    c.connected = true;
    c.server_count = 2;
    c.platform = Platform::Windows;
    let items = items_for(TopMenu::File, &c);
    assert_eq!(enabled_of(&items[3]), Some(true));
    assert!(matches!(&items[6], MenuItem::Entry { shortcut: "Alt+F4", .. }));
}

#[test]
fn view_menu_sort_rows_and_grouping_label() {
    let mut c = ctx();
    c.sort_modes = Some(vec![ColumnSortMode::Default, ColumnSortMode::ByTitle]);
    c.category = BrowseCategory::Playlists;
    c.playlist_focused_grouped = true;
    let items = items_for(TopMenu::View, &c);
    assert_eq!(text_label(&items[14]), Some("Sort: Default"));
    assert_eq!(enabled_of(&items[14]), Some(true));
    assert_eq!(enabled_of(&items[15]), Some(false));
    assert_eq!(enabled_of(&items[17]), Some(true));
    assert_eq!(enabled_of(&items[21]), Some(true));
    assert_eq!(text_label(&items[22]), Some("Group by Track"));
    assert_eq!(enabled_of(&items[22]), Some(true));
    assert!(matches!(&items[24], MenuItem::CoverArtToggle));
    c.category = BrowseCategory::Library;
    c.sort_modes = None;
    let items = items_for(TopMenu::View, &c);
    assert_eq!(text_label(&items[22]), Some("Group by Album"));
    assert_eq!(enabled_of(&items[22]), Some(false));
    assert_eq!(enabled_of(&items[21]), Some(false));
}

#[test]
fn queue_menu_dj_modes_and_undo() {
    let mut c = ctx();
    c.queue_len = 3;
    let items = items_for(TopMenu::Queue, &c);
    assert!(matches!(&items[7], MenuItem::Entry { label: MenuLabel::DjModeName(DjMode::Stretch), enabled: true, .. }));
    assert_eq!(enabled_of(&items[19]), Some(false));
    c.shuffle_undo_available = true;
    let items = items_for(TopMenu::Queue, &c);
    assert_eq!(enabled_of(&items[19]), Some(true));
    c.view = AppView::Queue;
    let items = items_for(TopMenu::Queue, &c);
    assert_eq!(enabled_of(&items[0]), Some(false));
}

#[test]
fn radio_and_tools_need_an_active_library() {
    let mut c = ctx();
    c.connected = false;
    let radio = items_for(TopMenu::Radio, &c);
    assert!(radio.iter().all(|i| enabled_of(i) != Some(true)));
    let tools = items_for(TopMenu::Tools, &c);
    assert!(matches!(
        &tools[1],
        MenuItem::KeyEntry { key: SyntheticKey { code: KeyCodeLite::Char('r'), mods: KeyMods::Alt }, enabled: false, .. }
    ));
}

#[test]
fn synthetic_keys() {
    assert_eq!(function_key(4), SyntheticKey { code: KeyCodeLite::F(4), mods: KeyMods::NoMods });
    assert_eq!(ctrl_char_key('m'), SyntheticKey { code: KeyCodeLite::Char('m'), mods: KeyMods::Control });
    assert_eq!(alt_char_key('r'), SyntheticKey { code: KeyCodeLite::Char('r'), mods: KeyMods::Alt });
}

#[test]
fn sort_column_type_of_focused_column() {
    let artist = BrowseItem::Artist { key: "a".to_string(), title: "A".to_string() };
    let album = BrowseItem::Album { key: "b".to_string(), title: "B".to_string(), artist: "A".to_string(), year: None, thumb: None };
    let track = BrowseItem::Track {
        key: "t".to_string(),
        title: "T".to_string(),
        artist_name: None,
        album_name: None,
        track_number: None,
        duration_ms: 0,
    };
    let radio = BrowseItem::ArtistRadio { artist_key: "a".to_string(), artist_name: "A".to_string() };
    let v = vec![radio.clone(), radio.clone(), artist.clone()];
    assert_eq!(focused_sort_column_type(AppView::Browse, Some(&v), false), Some(SortColumnType::Artist));
    let v = vec![radio.clone(), radio.clone(), radio.clone(), album.clone()];
    assert_eq!(focused_sort_column_type(AppView::Browse, Some(&v), false), Some(SortColumnType::Album));
    let v = vec![radio.clone(), radio.clone(), radio.clone(), radio.clone(), album];
    assert_eq!(focused_sort_column_type(AppView::Browse, Some(&v), false), None);
    let v = vec![track.clone()];
    assert_eq!(focused_sort_column_type(AppView::Browse, Some(&v), true), Some(SortColumnType::AllTracks));
    assert_eq!(focused_sort_column_type(AppView::Browse, Some(&v), false), Some(SortColumnType::Track));
    assert_eq!(focused_sort_column_type(AppView::Queue, Some(&v), false), None);
    assert_eq!(focused_sort_column_type(AppView::Browse, None, false), None);
}

#[test]
fn native_menu_ids() {
    assert!(matches!(menu_event_for_id("1000"), Some(MenuMessage::ShowAbout)));
    assert!(matches!(menu_event_for_id("3004"), Some(MenuMessage::Action(Action::SeekRelative(-10000)))));
    assert!(matches!(
        menu_event_for_id("2005"),
        Some(MenuMessage::Action(Action::SetCategory(BrowseCategory::AlbumGenres)))
    ));
    assert!(matches!(
        menu_event_for_id("2007"),
        Some(MenuMessage::KeyClick(SyntheticKey { code: KeyCodeLite::Char('m'), mods: KeyMods::Control }))
    ));
    assert!(matches!(menu_event_for_id("4103"), Some(MenuMessage::Action(Action::ToggleDjMode(DjMode::Twofer)))));
    assert!(matches!(menu_event_for_id("6001"), Some(MenuMessage::OpenKeyboardShortcuts)));
    assert!(menu_event_for_id("7002").is_none());
    assert!(menu_event_for_id("abc").is_none());
    assert!(menu_event_for_id("").is_none());
    assert!(menu_event_for_id("99999999999").is_none());
}

#[test]
fn in_window_rows_send_what_native_items_send() {
    let c = ctx();
    let view = items_for(TopMenu::View, &c);
    assert!(matches!(item_message(view[4].clone()), Some(MenuMessage::Action(Action::SetCategory(BrowseCategory::Library)))));
    assert!(matches!(menu_event_for_id("2003"), Some(MenuMessage::Action(Action::SetCategory(BrowseCategory::Library)))));
    assert!(matches!(item_message(view[6].clone()), Some(MenuMessage::Action(Action::SetCategory(BrowseCategory::Genres)))));
    assert!(matches!(menu_event_for_id("2005"), Some(MenuMessage::Action(Action::SetCategory(BrowseCategory::AlbumGenres)))));
    assert!(item_message(view[3].clone()).is_none());
    let help = items_for(TopMenu::Help, &c);
    assert!(matches!(item_message(help[1].clone()), Some(MenuMessage::OpenKeyboardShortcuts)));
}
