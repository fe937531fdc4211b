use textamp::action::SearchTarget;
use textamp::browse::{BrowseCategory, BrowseColumn, BrowseItem, TrackInfo};
use textamp::ctxmenu::{
    folder_menu_rows, miller_menu_rows, queue_menu_rows, row_label, track_menu_rows, ExternalSearchToggles, MenuRow,
};
use textamp::miller::{BrowseState, LibraryArtist, MillerNav};

fn s(x: &str) -> String {
    x.to_string()
}

fn info(artist: &str, artist_key: Option<&str>, album: &str, album_key: Option<&str>) -> TrackInfo {
    TrackInfo {
        rating_key: s("t1"),
        title: s("Song"),
        artist_name: s(artist),
        album_name: s(album),
        artist_key: artist_key.map(s),
        album_key: album_key.map(s),
    }
}

fn track_item() -> BrowseItem {
    BrowseItem::Track {
        key: s("t1"),
        title: s("Song"),
        artist_name: None,
        album_name: None,
        track_number: None,
        duration_ms: 1000,
    }
}

fn state(category: BrowseCategory, col: BrowseColumn) -> BrowseState {
    BrowseState {
        category,
        nav: Some(MillerNav { columns: vec![col], focused_column: 0 }),
        category_column_focused: false,
        track_details: None,
        track_pane_focused: false,
        track_pane_index: 0,
        selected_album_title: String::new(),
        auto_drill_pending: false,
    }
}

const NO_SEARCH: ExternalSearchToggles = ExternalSearchToggles { apple_music: false, spotify: false, youtube: false };

#[test]
fn labels() {
    assert_eq!(row_label(MenuRow::PlayTrack { plural: true }, ""), "Play tracks");
    assert_eq!(row_label(MenuRow::AddTracksToEnd(3), ""), "Add 3 tracks to end of queue");
    assert_eq!(row_label(MenuRow::DeleteSelected(12), ""), "Delete 12 selected from queue");
    assert_eq!(
        row_label(MenuRow::SearchExternal(SearchTarget::Spotify), "Ween \u{2014} Pure Guava"),
        "Search Spotify for \u{201c}Ween \u{2014} Pure Guava\u{201d}"
    );
    assert_eq!(row_label(MenuRow::Sep, "x"), "");
    assert_eq!(row_label(MenuRow::SonicAdventure, ""), "Sonic Adventure\u{2026}");
}

#[test]
fn artist_and_playlist_rows_with_search_block() {
    let col = BrowseColumn {
        items: vec![
            BrowseItem::Artist { key: s("a"), title: s("Ween") },
            BrowseItem::Playlist { key: s("p"), title: s("Mix") },
            BrowseItem::Genre { key: s("g"), title: s("Rock") },
        ],
        tracks: Vec::new(),
        selected_index: 0,
        selected_set: Vec::new(),
        selection_anchor: None,
        grouped_by_album: false,
    };
    let st = state(BrowseCategory::Library, col);
    let toggles = ExternalSearchToggles { apple_music: false, spotify: true, youtube: true };
    assert_eq!(
        miller_menu_rows(&st, 0, 0, &toggles, &Vec::new()),
        Some(vec![
            MenuRow::ArtistRadio,
            MenuRow::SimilarArtists,
            MenuRow::RelatedArtists,
            MenuRow::Sep,
            MenuRow::ArtistBio,
            MenuRow::Sep,
            MenuRow::SearchExternal(SearchTarget::Spotify),
            MenuRow::SearchExternal(SearchTarget::YouTube),
        ])
    );
    assert_eq!(miller_menu_rows(&st, 0, 1, &NO_SEARCH, &Vec::new()), Some(vec![MenuRow::PlayPlaylist]));
    assert_eq!(miller_menu_rows(&st, 0, 2, &NO_SEARCH, &Vec::new()), None);
    assert_eq!(miller_menu_rows(&st, 0, 3, &NO_SEARCH, &Vec::new()), None);
    assert_eq!(miller_menu_rows(&st, 1, 0, &NO_SEARCH, &Vec::new()), None);
}

#[test]
fn track_rows_single_and_multi_selection() {
    let col = BrowseColumn {
        items: vec![track_item(), track_item(), track_item()],
        tracks: vec![info("Ween", Some("ar"), "Guava", Some("al")), info("", None, "", None)],
        selected_index: 0,
        selected_set: vec![0, 1, 2],
        selection_anchor: None,
        grouped_by_album: false,
    };
    let st = state(BrowseCategory::Playlists, col.clone());
    assert_eq!(
        miller_menu_rows(&st, 0, 0, &NO_SEARCH, &Vec::new()),
        Some(vec![
            MenuRow::PlayTrack { plural: true },
            MenuRow::PlayTrackAndFollowing { plural: true },
            MenuRow::AddTracksToEnd(2),
            MenuRow::PlayTracksNext(2),
            MenuRow::Sep,
            MenuRow::ShowSimilarTracks,
            MenuRow::SonicAdventure,
            MenuRow::Sep,
            MenuRow::GoToNowPlaying,
            MenuRow::ShowArtistBio,
            MenuRow::Sep,
            MenuRow::OpenInLibrary,
        ])
    );
    let mut single = col;
    single.selected_set = Vec::new();
    let st = state(BrowseCategory::Library, single);
    assert_eq!(
        miller_menu_rows(&st, 0, 1, &NO_SEARCH, &Vec::new()),
        Some(vec![
            MenuRow::PlayTrack { plural: false },
            MenuRow::PlayTrackAndFollowing { plural: false },
            MenuRow::AddToEnd,
            MenuRow::PlayNext,
            MenuRow::Sep,
            MenuRow::ShowSimilarTracks,
            MenuRow::SonicAdventure,
            MenuRow::Sep,
            MenuRow::GoToNowPlaying,
        ])
    );
}

#[test]
fn queue_rows() {
    let q = vec![info("Ween", Some("ar"), "Guava", Some("al")), info("", None, "", None)];
    assert_eq!(
        queue_menu_rows(false, &q, &Vec::new(), &Vec::new(), 0),
        Some(vec![
            MenuRow::Play,
            MenuRow::PlayNext,
            MenuRow::AddToEnd,
            MenuRow::Sep,
            MenuRow::MoveDown,
            MenuRow::DeleteFromQueue,
            MenuRow::Sep,
            MenuRow::ShowSimilarTracks,
            MenuRow::ShowSimilarAlbums,
            MenuRow::RelatedArtists,
            MenuRow::Sep,
            MenuRow::ShowArtistBio,
            MenuRow::OpenInLibrary,
        ])
    );
    assert_eq!(
        queue_menu_rows(false, &q, &Vec::new(), &vec![0, 1], 1),
        Some(vec![
            MenuRow::Play,
            MenuRow::PlayNext,
            MenuRow::AddToEnd,
            MenuRow::Sep,
            MenuRow::MoveSelectedUp(2),
            MenuRow::MoveSelectedDown(2),
            MenuRow::DeleteSelected(2),
            MenuRow::Sep,
            MenuRow::ShowSimilarTracks,
        ])
    );
    assert_eq!(
        queue_menu_rows(true, &Vec::new(), &q, &Vec::new(), 1),
        Some(vec![MenuRow::Play, MenuRow::Sep, MenuRow::MoveUp, MenuRow::DeleteFromQueue, MenuRow::Sep, MenuRow::ShowSimilarTracks])
    );
    assert_eq!(queue_menu_rows(true, &q, &Vec::new(), &Vec::new(), 0), None);
    assert_eq!(queue_menu_rows(false, &q, &Vec::new(), &Vec::new(), 2), None);
}

#[test]
fn standalone_track_rows() {
    assert_eq!(
        track_menu_rows(&info("Ween", Some("ar"), "", Some("al"))),
        vec![
            MenuRow::PlayTrack { plural: false },
            MenuRow::PlayNext,
            MenuRow::AddToEnd,
            MenuRow::Sep,
            MenuRow::ShowSimilarTracks,
            MenuRow::RelatedArtists,
            MenuRow::SonicAdventure,
            MenuRow::Sep,
            MenuRow::ShowArtistBio,
            MenuRow::OpenInLibrary,
        ]
    );
    assert_eq!(
        track_menu_rows(&info("", None, "Guava", Some("al"))),
        vec![
            MenuRow::PlayTrack { plural: false },
            MenuRow::PlayNext,
            MenuRow::AddToEnd,
            MenuRow::Sep,
            MenuRow::ShowSimilarTracks,
            MenuRow::ShowSimilarAlbums,
            MenuRow::SonicAdventure,
        ]
    );
}

#[test]
fn folder_rows_look_up_artist_names() {
    let artists = vec![LibraryArtist { rating_key: s("a1"), title: s("Ween") }];
    let track_artists = vec![
        LibraryArtist { rating_key: s("a2"), title: s("Guest") },
        LibraryArtist { rating_key: s("a3"), title: s("") },
    ];
    assert_eq!(folder_menu_rows(false, &Some(s("a1")), &None, &artists, &track_artists), None);
    assert_eq!(
        folder_menu_rows(true, &Some(s("a1")), &Some(s("al")), &artists, &track_artists),
        Some(vec![MenuRow::Play, MenuRow::Sep, MenuRow::ShowArtistBio, MenuRow::OpenInLibrary])
    );
    assert_eq!(
        folder_menu_rows(true, &Some(s("a2")), &None, &artists, &track_artists),
        Some(vec![MenuRow::Play, MenuRow::Sep, MenuRow::ShowArtistBio])
    );
    assert_eq!(folder_menu_rows(true, &Some(s("a3")), &Some(s("al")), &artists, &track_artists), Some(vec![MenuRow::Play]));
    assert_eq!(folder_menu_rows(true, &None, &Some(s("al")), &artists, &track_artists), Some(vec![MenuRow::Play]));
}
