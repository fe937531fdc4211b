use textamp::action::{Action, AppView, SearchTarget};
use textamp::browse::{BrowseCategory, BrowseColumn, BrowseItem, TrackInfo};
use textamp::ctxmenu::{miller_menu_rows, queue_menu_rows, track_menu_rows, ExternalSearchToggles, MenuRow};
use textamp::menucmd::{
    folder_row_command, miller_row_command, queue_row_command, track_row_command, MenuCommand, Via,
};
use textamp::miller::{BrowseState, LibraryArtist, MillerNav};

fn s(x: &str) -> String {
    x.to_string()
}

fn track(key: &str) -> TrackInfo {
    TrackInfo {
        rating_key: s(key),
        title: s("Cold Fame"),
        artist_name: s("Shellac"),
        album_name: s("Dude Incredible"),
        artist_key: Some(s("ar1")),
        album_key: Some(s("al1")),
    }
}

fn track_item(key: &str) -> BrowseItem {
    BrowseItem::Track {
        key: s(key),
        title: s("Cold Fame"),
        artist_name: Some(s("Shellac")),
        album_name: Some(s("Dude Incredible")),
        track_number: Some(3),
        duration_ms: 200_000,
    }
}

fn state(category: BrowseCategory, col: BrowseColumn) -> BrowseState {
    BrowseState {
        category,
        nav: Some(MillerNav { columns: vec![col], focused_column: 0 }),
        category_column_focused: false,
        track_details: None,
        track_pane_focused: false,
        track_pane_index: 0,
        selected_album_title: String::new(),
        auto_drill_pending: false,
    }
}

fn track_col() -> BrowseColumn {
    BrowseColumn {
        items: vec![track_item("t0"), track_item("t1"), track_item("t2")],
        tracks: vec![track("t0"), track("t1"), track("t2")],
        selected_index: 0,
        selected_set: vec![2, 0],
        selection_anchor: Some(2),
        grouped_by_album: false,
    }
}

fn only(c: &Option<MenuCommand>) -> (&Via, &Action) {
    let m = c.as_ref().expect("a command");
    assert_eq!(m.actions.len(), 1);
    (&m.via, &m.actions[0])
}

#[test]
fn miller_track_play_depends_on_category() {
    let st = state(BrowseCategory::Genres, track_col());
    let c = miller_row_command(&st, 0, 1, &vec![], MenuRow::PlayTrack { plural: false });
    assert!(matches!(only(&c), (Via::Direct, Action::PlayGenreTrackFromMiller { column_index: 0, track_index: 1, single_track: true })));
    let st = state(BrowseCategory::Playlists, track_col());
    let c = miller_row_command(&st, 0, 1, &vec![], MenuRow::PlayTrackAndFollowing { plural: false });
    assert!(matches!(only(&c), (Via::Direct, Action::PlayPlaylistTrackFromMiller { single_track: false, .. })));
    let st = state(BrowseCategory::Library, track_col());
    let c = miller_row_command(&st, 0, 1, &vec![], MenuRow::PlayTrack { plural: false });
    assert!(matches!(only(&c), (Via::Direct, Action::PlayTrackFromMiller { .. })));
}

#[test]
fn miller_bulk_entries_use_selection_order() {
    let st = state(BrowseCategory::Library, track_col());
    let c = miller_row_command(&st, 0, 2, &vec![], MenuRow::AddTracksToEnd(2)).unwrap();
    assert_eq!(c.via, Via::Direct);
    let keys: Vec<String> = c
        .actions
        .iter()
        .map(|a| match a {
            Action::EnqueueTrack(t) => t.rating_key.clone(),
            other => panic!("unexpected {:?}", other),
        })
        .collect();
    assert_eq!(keys, vec![s("t2"), s("t0")]);
    let c = miller_row_command(&st, 0, 2, &vec![], MenuRow::PlayTracksNext(2));
    match only(&c) {
        (Via::Direct, Action::EnqueueTracksNext(v)) => {
            assert_eq!(v.iter().map(|t| t.rating_key.clone()).collect::<Vec<_>>(), vec![s("t2"), s("t0")]);
        },
        other => panic!("unexpected {:?}", other),
    }
}

#[test]
fn miller_track_popups_and_navigation() {
    let st = state(BrowseCategory::Playlists, track_col());
    let c = miller_row_command(&st, 0, 1, &vec![], MenuRow::ShowSimilarTracks);
    assert!(matches!(only(&c), (Via::SimilarPopup, Action::LoadSimilarTracks { rating_key, title }) if rating_key == "t1" && title == "Cold Fame"));
    let c = miller_row_command(&st, 0, 1, &vec![], MenuRow::GoToNowPlaying).unwrap();
    assert_eq!(c.actions.len(), 2);
    assert!(matches!(c.actions[0], Action::SetView(AppView::NowPlaying)));
    assert!(matches!(c.actions[1], Action::LoadWaveform));
    let c = miller_row_command(&st, 0, 1, &vec![], MenuRow::OpenInLibrary);
    assert!(matches!(only(&c), (Via::Direct, Action::OpenInLibrary(g)) if g.artist_key == "ar1" && g.album_key.as_deref() == Some("al1")));
    let c = miller_row_command(&st, 0, 1, &vec![], MenuRow::ShowArtistBio);
    assert!(matches!(only(&c), (Via::Direct, Action::ShowArtistBio { artist_key, artist_name }) if artist_key == "ar1" && artist_name == "Shellac"));
    let c = miller_row_command(&st, 0, 1, &vec![], MenuRow::SonicAdventure);
    assert!(matches!(only(&c), (Via::Direct, Action::OpenAdventureLauncherWithStart(t)) if t.rating_key == "t1"));
    let c = miller_row_command(&st, 0, 1, &vec![], MenuRow::SearchExternal(SearchTarget::Spotify));
    assert!(matches!(only(&c), (Via::Direct, Action::OpenExternalSearch { target: SearchTarget::Spotify, query: Some(q) }) if q == "Shellac - Dude Incredible"));
    assert!(miller_row_command(&st, 0, 1, &vec![], MenuRow::PlayAlbum).is_none());
    assert!(miller_row_command(&st, 0, 7, &vec![], MenuRow::PlayTrack { plural: false }).is_none());
    assert!(miller_row_command(&st, 3, 0, &vec![], MenuRow::PlayTrack { plural: false }).is_none());
}

#[test]
fn miller_album_artist_playlist_commands() {
    let col = BrowseColumn {
        items: vec![
            BrowseItem::Album { key: s("al9"), title: s("Terraform"), artist: s("Shellac"), year: Some(1998), thumb: None },
            BrowseItem::Artist { key: s("ar1"), title: s("Shellac") },
            BrowseItem::Playlist { key: s("pl1"), title: s("Loud") },
        ],
        tracks: vec![],
        selected_index: 0,
        selected_set: vec![],
        selection_anchor: None,
        grouped_by_album: false,
    };
    let st = state(BrowseCategory::Library, col);
    let roster = vec![LibraryArtist { rating_key: s("ar1"), title: s("Shellac") }];
    let c = miller_row_command(&st, 0, 0, &roster, MenuRow::PlayAlbum);
    assert!(matches!(only(&c), (Via::Direct, Action::PlayAlbumNow { rating_key, title }) if rating_key == "al9" && title == "Terraform"));
    let c = miller_row_command(&st, 0, 0, &roster, MenuRow::ShowSimilarAlbums);
    assert!(matches!(only(&c), (Via::SimilarPopup, Action::LoadSimilarAlbums { .. })));
    let c = miller_row_command(&st, 0, 0, &roster, MenuRow::OpenInLibrary);
    assert!(matches!(only(&c), (Via::Direct, Action::OpenInLibrary(g)) if g.artist_key == "ar1" && g.album_title.as_deref() == Some("Terraform")));
    assert!(miller_row_command(&st, 0, 0, &vec![], MenuRow::OpenInLibrary).is_none());
    let c = miller_row_command(&st, 0, 1, &roster, MenuRow::RelatedArtists);
    assert!(matches!(only(&c), (Via::RelatedPopup, Action::LoadRelated { artist_key, .. }) if artist_key == "ar1"));
    let c = miller_row_command(&st, 0, 1, &roster, MenuRow::ArtistRadio);
    assert!(matches!(only(&c), (Via::Direct, Action::StartPlexRadio { key, title }) if key == "ar1" && title == "Shellac"));
    let c = miller_row_command(&st, 0, 2, &roster, MenuRow::PlayPlaylist);
    assert!(matches!(only(&c), (Via::Direct, Action::PlayPlaylistNow { playlist_key, .. }) if playlist_key == "pl1"));
}

#[test]
fn every_offered_miller_entry_has_a_command() {
    let st = state(BrowseCategory::Playlists, track_col());
    let toggles = ExternalSearchToggles { apple_music: true, spotify: true, youtube: true };
    let rows = miller_menu_rows(&st, 0, 2, &toggles, &vec![]).unwrap();
    for r in rows {
        if r != MenuRow::Sep {
            assert!(miller_row_command(&st, 0, 2, &vec![], r).is_some(), "{:?}", r);
        }
    }
}

#[test]
fn queue_commands() {
    let t = track("q3");
    assert!(matches!(only(&queue_row_command(true, &t, 3, MenuRow::Play)), (Via::Direct, Action::JumpToRadioTrack(3))));
    assert!(matches!(only(&queue_row_command(false, &t, 3, MenuRow::Play)), (Via::Direct, Action::PlayTrackFromCategory(3))));
    assert!(matches!(only(&queue_row_command(false, &t, 3, MenuRow::MoveUp)), (Via::Direct, Action::MoveQueueRowUp(3))));
    assert!(matches!(only(&queue_row_command(false, &t, 3, MenuRow::DeleteSelected(2))), (Via::Direct, Action::RemoveSelectedFromQueue)));
    assert!(matches!(only(&queue_row_command(false, &t, 3, MenuRow::DeleteFromQueue)), (Via::Direct, Action::RemoveFromQueue(3))));
    let c = queue_row_command(false, &t, 3, MenuRow::ShowSimilarTracks);
    assert!(matches!(only(&c), (Via::SimilarPopup, Action::LoadSimilarTracks { rating_key, title }) if rating_key == "q3" && title == "Shellac - Cold Fame"));
    let mut anon = track("q4");
    anon.artist_key = None;
    assert!(queue_row_command(false, &anon, 4, MenuRow::RelatedArtists).is_none());
    let queue = vec![track("q0"), track("q1")];
    let rows = queue_menu_rows(false, &queue, &vec![], &vec![], 1).unwrap();
    for r in rows {
        if r != MenuRow::Sep {
            assert!(queue_row_command(false, &queue[1], 1, r).is_some(), "{:?}", r);
        }
    }
}

#[test]
fn standalone_track_commands() {
    let t = track("s1");
    assert!(matches!(only(&track_row_command(&t, MenuRow::PlayTrack { plural: false })), (Via::Direct, Action::PlayTrack(x)) if x.rating_key == "s1"));
    match only(&track_row_command(&t, MenuRow::PlayNext)) {
        (Via::Direct, Action::EnqueueTracksNext(v)) => assert_eq!(v.len(), 1),
        other => panic!("unexpected {:?}", other),
    }
    assert!(matches!(only(&track_row_command(&t, MenuRow::AddToEnd)), (Via::Direct, Action::EnqueueTrack(_))));
    for r in track_menu_rows(&t) {
        if r != MenuRow::Sep {
            assert!(track_row_command(&t, r).is_some(), "{:?}", r);
        }
    }
}

#[test]
fn folder_commands() {
    let roster = vec![LibraryArtist { rating_key: s("ar1"), title: s("Shellac") }];
    let c = folder_row_command(5, &Some(s("ar1")), &Some(s("al1")), &roster, &vec![], MenuRow::Play);
    assert!(matches!(only(&c), (Via::Direct, Action::PlayFolderTrack(5))));
    let c = folder_row_command(5, &Some(s("ar1")), &Some(s("al1")), &vec![], &roster, MenuRow::OpenInLibrary);
    assert!(matches!(only(&c), (Via::Direct, Action::OpenInLibrary(g)) if g.artist_name == "Shellac" && g.album_title.is_none()));
    assert!(folder_row_command(5, &Some(s("zz")), &Some(s("al1")), &roster, &vec![], MenuRow::ShowArtistBio).is_none());
    assert!(folder_row_command(5, &Some(s("ar1")), &None, &roster, &vec![], MenuRow::OpenInLibrary).is_none());
}
