use textamp::action::Action;
use textamp::browse::{BrowseCategory, BrowseColumn, BrowseItem, TrackInfo};
use textamp::action::AppView;
use textamp::miller::{
    actions_for_click, alphabet_strip, alphabet_target_index, miller_click_actions, miller_row_look, miller_select_gesture, row_click,
    open_in_library_for_album, refocus_after_drill, track_pane_fetch_key, BrowseState, LibraryArtist, MillerNav,
    MillerRowLook, RowClick, similar_row_click, SimilarTrack, focus_root_row, load_more_request, LazyPages,
    close_column_focus, state_browse_category_is_folders,
};
use textamp::folders::{FolderColumn, FolderItem, FolderItemType, FolderNav};

fn s(x: &str) -> String {
    x.to_string()
}

fn artist(k: &str) -> BrowseItem {
    BrowseItem::Artist { key: s(k), title: s(k) }
}

fn album(k: &str, artist: &str) -> BrowseItem {
    BrowseItem::Album { key: s(k), title: s("Album ") + k, artist: s(artist), year: None, thumb: None }
}

fn col(items: Vec<BrowseItem>) -> BrowseColumn {
    BrowseColumn { items, tracks: Vec::new(), selected_index: 0, selected_set: Vec::new(), selection_anchor: None, grouped_by_album: false }
}

fn state(category: BrowseCategory, columns: Vec<BrowseColumn>) -> BrowseState {
    BrowseState {
        category,
        nav: Some(MillerNav { columns, focused_column: 0 }),
        category_column_focused: true,
        track_details: None,
        track_pane_focused: false,
        track_pane_index: 0,
        selected_album_title: String::new(),
        auto_drill_pending: false,
    }
}

fn track(key: &str) -> TrackInfo {
    TrackInfo {
        rating_key: s(key),
        title: s("Song"),
        artist_name: s("Ween"),
        album_name: s("Pure Guava"),
        artist_key: Some(s("ar1")),
        album_key: Some(s("al1")),
    }
}

#[test]
fn plain_click_without_child_only_selects() {
    let mut st = state(BrowseCategory::Library, vec![col(vec![artist("a1"), artist("a2")])]);
    let r = miller_click_actions(&mut st, 0, 1, false, None);
    assert!(r.is_empty());
    let nav = st.nav.as_ref().unwrap();
    assert_eq!(nav.columns[0].selected_index, 1);
    assert_eq!(nav.focused_column, 0);
    assert!(!st.category_column_focused);
    assert!(!st.auto_drill_pending);
}

#[test]
fn plain_click_with_open_child_refills_it() {
    let mut st = state(
        BrowseCategory::Library,
        vec![col(vec![artist("a1"), artist("a2")]), col(vec![album("al1", "a1")]), col(vec![])],
    );
    let r = miller_click_actions(&mut st, 0, 1, false, None);
    assert_eq!(r.len(), 1);
    assert!(matches!(&r[0], Action::LoadArtistAlbumsForMiller { artist_key } if artist_key == "a2"));
    assert_eq!(st.nav.as_ref().unwrap().columns.len(), 1);
    assert!(st.auto_drill_pending);
}

#[test]
fn plain_click_with_details_pane_closes_it_for_non_tracks() {
    let mut st = state(BrowseCategory::Library, vec![col(vec![artist("a1"), artist("a2")])]);
    st.track_details = Some(track("t0"));
    st.track_pane_focused = true;
    st.track_pane_index = 3;
    let r = miller_click_actions(&mut st, 0, 0, false, None);
    assert_eq!(r.len(), 1);
    assert!(st.track_details.is_none());
    assert!(!st.track_pane_focused);
    assert_eq!(st.track_pane_index, 0);
}

#[test]
fn activating_album_in_genres_loads_genre_tracks() {
    let mut st = state(BrowseCategory::Genres, vec![col(vec![album("al7", "x")])]);
    let r = miller_click_actions(&mut st, 0, 0, true, None);
    assert!(matches!(&r[0], Action::LoadGenreTracksForMiller { album_key } if album_key == "al7"));
    assert_eq!(st.selected_album_title, "Album al7");
    let mut st2 = state(BrowseCategory::Library, vec![col(vec![album("al7", "x")])]);
    let r2 = miller_click_actions(&mut st2, 0, 0, true, None);
    assert!(matches!(&r2[0], Action::LoadAlbumTracksForMiller { album_key } if album_key == "al7"));
}

#[test]
fn all_tracks_rows_pick_their_loader() {
    let rows = vec![
        BrowseItem::AllTracks { artist_key: s("__all_library__"), artist_name: s("") },
        BrowseItem::AllTracks { artist_key: s("__all_comp__"), artist_name: s("") },
        BrowseItem::AllTracks { artist_key: s("__comp_tracks:ar5"), artist_name: s("Various") },
        BrowseItem::AllTracks { artist_key: s("ar6"), artist_name: s("Six") },
    ];
    let mut st = state(BrowseCategory::Library, vec![col(rows)]);
    assert!(matches!(miller_click_actions(&mut st, 0, 0, true, None)[0], Action::LoadAllLibraryTracksForMiller));
    assert!(matches!(miller_click_actions(&mut st, 0, 1, true, None)[0], Action::LoadAllCompilationTracksForMiller));
    let r = miller_click_actions(&mut st, 0, 2, true, None);
    assert!(matches!(&r[0], Action::LoadCompilationAllTracksForMiller { artist_key, artist_name }
        if artist_key == "ar5" && artist_name == "Various"));
    let r = miller_click_actions(&mut st, 0, 3, true, None);
    assert!(matches!(&r[0], Action::LoadArtistAllTracksForMiller { artist_key } if artist_key == "ar6"));
}

#[test]
fn activating_track_opens_details_without_arming_drill() {
    let item = BrowseItem::Track {
        key: s("t1"),
        title: s("Song"),
        artist_name: None,
        album_name: None,
        track_number: None,
        duration_ms: 1000,
    };
    let mut c = col(vec![item]);
    c.tracks.push(track("t1"));
    let mut st = state(BrowseCategory::Library, vec![c]);
    let r = miller_click_actions(&mut st, 0, 0, true, None);
    assert!(matches!(&r[0], Action::OpenTrackDetails(t) if t.rating_key == "t1"));
    assert!(!st.auto_drill_pending);
}

#[test]
fn artist_radio_starts_radio_without_arming_drill() {
    let mut st = state(
        BrowseCategory::Library,
        vec![col(vec![BrowseItem::ArtistRadio { artist_key: s("ar1"), artist_name: s("Ween") }])],
    );
    let r = miller_click_actions(&mut st, 0, 0, true, None);
    assert!(matches!(&r[0], Action::StartPlexRadio { key, title } if key == "ar1" && title == "Ween"));
    assert!(!st.auto_drill_pending);
}

#[test]
fn grouped_playlist_album_drills_locally() {
    let mut c = col(vec![album("g1", "x")]);
    c.grouped_by_album = true;
    let mut st = state(BrowseCategory::Playlists, vec![c]);
    let r = miller_click_actions(&mut st, 0, 0, true, Some(col(vec![])));
    assert!(r.is_empty());
    assert_eq!(st.nav.as_ref().unwrap().columns.len(), 2);
    assert!(!st.auto_drill_pending);
}

#[test]
fn clicks_outside_the_columns_do_nothing() {
    let mut st = state(BrowseCategory::Library, vec![col(vec![artist("a1")])]);
    assert!(miller_click_actions(&mut st, 3, 0, true, None).is_empty());
    assert!(miller_click_actions(&mut st, 0, 9, true, None).is_empty());
    assert_eq!(st.nav.as_ref().unwrap().columns.len(), 1);
}

#[test]
fn actions_for_click_gives_the_drill_commands() {
    let st = state(BrowseCategory::Library, vec![col(vec![artist("a1"), artist("a2")])]);
    let r = actions_for_click(&st, RowClick { column_index: 0, item_index: 1, activate: true });
    assert_eq!(r.len(), 1);
    assert!(matches!(&r[0], Action::LoadArtistAlbumsForMiller { artist_key } if artist_key == "a2"));
    assert!(actions_for_click(&st, RowClick { column_index: 0, item_index: 1, activate: false }).is_empty());
    assert!(actions_for_click(&st, RowClick { column_index: 0, item_index: 7, activate: true }).is_empty());
    assert!(actions_for_click(&st, RowClick { column_index: 2, item_index: 0, activate: true }).is_empty());
    let open = state(BrowseCategory::Library, vec![col(vec![artist("a1"), artist("a2")]), col(vec![])]);
    let r = actions_for_click(&open, RowClick { column_index: 0, item_index: 0, activate: false });
    assert!(matches!(&r[0], Action::LoadArtistAlbumsForMiller { artist_key } if artist_key == "a1"));
    let mut grouped = col(vec![album("al1", "a1")]);
    grouped.grouped_by_album = true;
    let pl = state(BrowseCategory::Playlists, vec![grouped]);
    assert!(actions_for_click(&pl, RowClick { column_index: 0, item_index: 0, activate: true }).is_empty());
    assert_eq!(st.nav.as_ref().unwrap().columns[0].selected_index, 0);
}

#[test]
fn letter_strip_jumps() {
    let st = state(BrowseCategory::Library, vec![col(vec![])]);
    let keys = vec![s("abba"), s("beatles"), s("2pac"), s("!!!"), s("Bowie")];
    assert_eq!(alphabet_target_index(&st, &keys, 'B'), Some(1));
    assert_eq!(alphabet_target_index(&st, &keys, 'b'), Some(1));
    assert_eq!(alphabet_target_index(&st, &keys, '0'), Some(2));
    assert_eq!(alphabet_target_index(&st, &keys, '%'), Some(3));
    assert_eq!(alphabet_target_index(&st, &keys, 'z'), None);
    assert_eq!(alphabet_target_index(&st, &keys, '#'), None);
    let folders = state(BrowseCategory::Folders, vec![col(vec![])]);
    assert_eq!(alphabet_target_index(&folders, &keys, 'a'), None);
}

#[test]
fn open_in_library_for_album_finds_artist_by_name() {
    let st = state(BrowseCategory::Playlists, vec![col(vec![album("al1", "Ween")])]);
    let roster = vec![
        LibraryArtist { rating_key: s("ar0"), title: s("Other") },
        LibraryArtist { rating_key: s("ar1"), title: s("Ween") },
    ];
    let t = open_in_library_for_album(&st, &roster, "al1", "Pure Guava").unwrap();
    assert_eq!(t.artist_key, "ar1");
    assert_eq!(t.artist_name, "Ween");
    assert_eq!(t.album_key, Some(s("al1")));
    assert_eq!(t.album_title, Some(s("Pure Guava")));
    assert!(open_in_library_for_album(&st, &roster, "nope", "x").is_none());
    let st2 = state(BrowseCategory::Playlists, vec![col(vec![album("al1", "Nobody")])]);
    assert!(open_in_library_for_album(&st2, &roster, "al1", "x").is_none());
}

fn track_row(k: &str) -> BrowseItem {
    BrowseItem::Track {
        key: s(k),
        title: s(k),
        artist_name: None,
        album_name: None,
        track_number: None,
        duration_ms: 1000,
    }
}

fn sorted_sel(st: &BrowseState, ci: usize) -> Vec<usize> {
    let mut v = st.nav.as_ref().unwrap().columns[ci].selected_set.clone();
    v.sort();
    v
}

#[test]
fn shift_click_on_tracks_selects_range_from_cursor() {
    let rows: Vec<BrowseItem> = (0..6).map(|i| track_row(&format!("t{i}"))).collect();
    let mut c = col(rows);
    c.selected_index = 1;
    let mut st = state(BrowseCategory::Playlists, vec![col(vec![artist("a")]), c]);
    st.track_pane_focused = true;
    assert!(miller_select_gesture(&mut st, 1, 4, true, false));
    assert_eq!(sorted_sel(&st, 1), vec![1, 2, 3, 4]);
    let nav = st.nav.as_ref().unwrap();
    assert_eq!(nav.columns[1].selected_index, 4);
    assert_eq!(nav.columns[1].selection_anchor, None);
    assert_eq!(nav.focused_column, 1);
    assert!(!st.category_column_focused);
    assert!(!st.track_pane_focused);
    // Toggle adds and anchors; a further shift extends from the anchor.
    assert!(miller_select_gesture(&mut st, 1, 0, false, true));
    assert_eq!(sorted_sel(&st, 1), vec![0, 1, 2, 3, 4]);
    assert!(miller_select_gesture(&mut st, 1, 2, false, true));
    assert_eq!(sorted_sel(&st, 1), vec![0, 1, 3, 4]);
    assert!(miller_select_gesture(&mut st, 1, 5, true, false));
    assert_eq!(sorted_sel(&st, 1), vec![2, 3, 4, 5]);
    assert_eq!(st.nav.as_ref().unwrap().columns[1].selection_anchor, Some(2));
}

#[test]
fn plain_or_non_track_press_clears_multi_selection() {
    let mut c = col(vec![track_row("t0"), track_row("t1")]);
    c.selected_set = vec![0, 1];
    let mut st = state(BrowseCategory::Library, vec![col(vec![artist("a1"), artist("a2")]), c]);
    assert!(!miller_select_gesture(&mut st, 1, 1, false, false));
    assert!(sorted_sel(&st, 1).is_empty());
    assert_eq!(st.nav.as_ref().unwrap().columns[1].selection_anchor, Some(1));
    assert_eq!(st.nav.as_ref().unwrap().columns[1].selected_index, 0);
    assert_eq!(st.nav.as_ref().unwrap().focused_column, 0);
    // Shift on an artist row is a plain click too.
    assert!(!miller_select_gesture(&mut st, 0, 1, true, false));
    assert_eq!(st.nav.as_ref().unwrap().columns[0].selection_anchor, Some(1));
    // Past the last column nothing changes.
    assert!(!miller_select_gesture(&mut st, 5, 0, true, false));
}

#[test]
fn refocus_after_drill_snaps_back() {
    let mut st = state(BrowseCategory::Library, vec![col(vec![artist("a")]), col(vec![album("b", "a")])]);
    st.nav.as_mut().unwrap().focused_column = 1;
    assert!(refocus_after_drill(&mut st, 0, false, Some(0)));
    assert_eq!(st.nav.as_ref().unwrap().focused_column, 0);
    st.nav.as_mut().unwrap().focused_column = 1;
    assert!(!refocus_after_drill(&mut st, 0, false, Some(1)));
    assert_eq!(st.nav.as_ref().unwrap().focused_column, 1);
    assert!(refocus_after_drill(&mut st, 0, true, Some(1)));
    assert_eq!(st.nav.as_ref().unwrap().focused_column, 0);
}

#[test]
fn track_pane_fetches_cursor_track_once() {
    let mut c = col(vec![artist("x"), track_row("t1")]);
    c.tracks = vec![track("k0"), track("k1")];
    c.selected_index = 1;
    let st = state(BrowseCategory::Playlists, vec![c]);
    assert_eq!(track_pane_fetch_key(&st, AppView::Browse, &Vec::new()), Some(s("k1")));
    assert_eq!(track_pane_fetch_key(&st, AppView::Browse, &vec![s("k1")]), None);
    assert_eq!(track_pane_fetch_key(&st, AppView::Queue, &Vec::new()), None);
    let mut st2 = st.clone();
    st2.nav.as_mut().unwrap().columns[0].selected_index = 0;
    assert_eq!(track_pane_fetch_key(&st2, AppView::Browse, &Vec::new()), None);
}

#[test]
fn row_look_and_click() {
    assert_eq!(miller_row_look(true, true, true), MillerRowLook::FocusedCursor);
    assert_eq!(miller_row_look(true, false, false), MillerRowLook::Cursor);
    assert_eq!(miller_row_look(false, true, true), MillerRowLook::Multi);
    assert_eq!(miller_row_look(false, false, true), MillerRowLook::Plain);
    let c = row_click(2, 7, true);
    assert_eq!((c.column_index, c.item_index, c.activate), (2, 7, true));
    assert!(!row_click(0, 0, false).activate);
}

#[test]
fn alphabet_strip_ascending_and_descending() {
    let up = alphabet_strip(false);
    assert_eq!(up.len(), 29);
    assert_eq!(up[0], ('%', '%'));
    assert_eq!(up[1], ('0', '0'));
    assert_eq!(up[2], ('a', 'A'));
    assert_eq!(up[27], ('z', 'Z'));
    assert_eq!(up[28], ('\u{6587}', '\u{03A9}'));
    let down = alphabet_strip(true);
    let mut rev = up.clone();
    rev.reverse();
    assert_eq!(down, rev);
}

fn sim(artist_key: Option<&str>) -> SimilarTrack {
    SimilarTrack {
        artist_key: artist_key.map(s),
        track_artist: s("Mdou Moctar"),
        album_key: Some(s("alb9")),
        album_title: Some(s("Afrique Victime")),
    }
}

#[test]
fn similar_row_first_click_highlights_second_opens() {
    let mut st = state(BrowseCategory::Library, vec![col(vec![artist("a1")])]);
    let list = vec![sim(Some("ar7")), sim(None)];
    assert!(similar_row_click(&mut st, 1, &list).is_none());
    assert!(st.track_pane_focused);
    assert_eq!(st.track_pane_index, 1);
    assert!(!st.category_column_focused);
    let t = similar_row_click(&mut st, 1, &list).unwrap();
    assert_eq!(t.artist_key, "ar7");
    assert_eq!(t.artist_name, "Mdou Moctar");
    assert_eq!(t.album_key.as_deref(), Some("alb9"));
    assert_eq!(t.album_title.as_deref(), Some("Afrique Victime"));
    assert!(!st.track_pane_focused);
    assert_eq!(st.track_pane_index, 0);
}

#[test]
fn similar_row_without_artist_key_stays_highlighted() {
    let mut st = state(BrowseCategory::Library, vec![]);
    let list = vec![sim(Some("ar7")), sim(None)];
    assert!(similar_row_click(&mut st, 2, &list).is_none());
    assert!(similar_row_click(&mut st, 2, &list).is_none());
    assert!(st.track_pane_focused);
    assert_eq!(st.track_pane_index, 2);
    assert!(similar_row_click(&mut st, 5, &list).is_none());
    assert!(similar_row_click(&mut st, 5, &list).is_none());
    assert_eq!(st.track_pane_index, 5);
}

#[test]
fn focus_root_row_selects_key_and_truncates() {
    let mut nav = MillerNav {
        columns: vec![col(vec![artist("a1"), artist("a2"), artist("a2")]), col(vec![album("x", "a1")]), col(vec![])],
        focused_column: 2,
    };
    focus_root_row(&mut nav, "a2");
    assert_eq!(nav.focused_column, 0);
    assert_eq!(nav.columns.len(), 1);
    assert_eq!(nav.columns[0].selected_index, 1);
    let mut nav2 = MillerNav { columns: vec![col(vec![artist("a1")]), col(vec![])], focused_column: 1 };
    nav2.columns[0].selected_index = 0;
    focus_root_row(&mut nav2, "zz");
    assert_eq!(nav2.columns.len(), 1);
    assert_eq!(nav2.columns[0].selected_index, 0);
    let mut empty = MillerNav { columns: vec![], focused_column: 3 };
    focus_root_row(&mut empty, "a1");
    assert_eq!(empty.focused_column, 0);
    assert!(empty.columns.is_empty());
}

#[test]
fn load_more_asks_for_next_page_only_when_needed() {
    let lazy = LazyPages { key: s("pl1"), total: Some(250), loading: false };
    match load_more_request(100, &lazy, true) {
        Some(Action::LoadMorePlaylistTracks { playlist_key, offset }) => {
            assert_eq!(playlist_key, "pl1");
            assert_eq!(offset, 100);
        },
        other => panic!("unexpected {:?}", other),
    }
    assert!(load_more_request(100, &lazy, false).is_none());
    assert!(load_more_request(250, &lazy, true).is_none());
    let busy = LazyPages { key: s("pl1"), total: Some(250), loading: true };
    assert!(load_more_request(100, &busy, true).is_none());
    let unknown = LazyPages { key: s("pl2"), total: None, loading: false };
    assert!(load_more_request(5000, &unknown, true).is_some());
}

#[test]
fn close_button_of_details_pane_only_clears_pane() {
    let mut st = state(BrowseCategory::Library, vec![col(vec![artist("a1")]), col(vec![])]);
    st.track_details = Some(track("t1"));
    st.track_pane_focused = true;
    st.track_pane_index = 4;
    let mut folders: Option<FolderNav> = None;
    assert!(!close_column_focus(&mut st, &mut folders, None));
    assert!(st.track_details.is_none());
    assert!(!st.track_pane_focused);
    assert_eq!(st.track_pane_index, 0);
    assert!(st.category_column_focused);
}

#[test]
fn close_button_of_column_focuses_it_first() {
    let mut st = state(BrowseCategory::Library, vec![col(vec![artist("a1")]), col(vec![]), col(vec![])]);
    st.nav.as_mut().unwrap().focused_column = 2;
    let mut folders: Option<FolderNav> = None;
    assert!(close_column_focus(&mut st, &mut folders, Some(1)));
    assert_eq!(st.nav.as_ref().unwrap().focused_column, 1);
    assert!(!st.category_column_focused);
    assert!(close_column_focus(&mut st, &mut folders, Some(9)));
    assert_eq!(st.nav.as_ref().unwrap().focused_column, 1);
    let mut fst = state(BrowseCategory::Folders, vec![col(vec![])]);
    let fcol = FolderColumn { title: s("Music"), items: vec![FolderItem { key: s("/m"), title: s("m"), item_type: FolderItemType::Folder }], selected_index: 0 };
    let mut fnav = Some(FolderNav { columns: vec![fcol.clone(), fcol], focused_column: 0 });
    assert!(close_column_focus(&mut fst, &mut fnav, Some(1)));
    assert_eq!(fnav.as_ref().unwrap().focused_column, 1);
    assert_eq!(fst.nav.as_ref().unwrap().focused_column, 0);
}

#[test]
fn folders_category_check() {
    assert!(state_browse_category_is_folders(&state(BrowseCategory::Folders, vec![])));
    assert!(!state_browse_category_is_folders(&state(BrowseCategory::Genres, vec![])));
}
