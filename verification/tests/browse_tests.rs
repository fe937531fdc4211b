use textamp::browse::{
    action_label_for, art_key_for, art_thumb_path_for, external_search_query_for_item, has_art_thumb,
    is_action_item, label_for, open_in_library_for_track, open_in_library_for_track_obj, row_height_for,
    BrowseColumn, BrowseItem, TrackInfo, ROW_H_ACTION, ROW_H_ART, ROW_H_TEXT,
};

fn s(x: &str) -> String {
    x.to_string()
}

fn album(title: &str, artist: &str, year: Option<u32>) -> BrowseItem {
    BrowseItem::Album { key: s("al1"), title: s(title), artist: s(artist), year, thumb: Some(s("/thumb/al1")) }
}

fn track_item(title: &str, artist: Option<&str>, number: Option<u32>, ms: u64) -> BrowseItem {
    BrowseItem::Track {
        key: s("t1"),
        title: s(title),
        artist_name: artist.map(s),
        album_name: None,
        track_number: number,
        duration_ms: ms,
    }
}

fn info(artist: &str, album: &str, artist_key: Option<&str>, album_key: Option<&str>) -> TrackInfo {
    TrackInfo {
        rating_key: s("t1"),
        title: s("Song"),
        artist_name: s(artist),
        album_name: s(album),
        artist_key: artist_key.map(s),
        album_key: album_key.map(s),
    }
}

fn column(items: Vec<BrowseItem>, tracks: Vec<TrackInfo>) -> BrowseColumn {
    BrowseColumn { items, tracks, selected_index: 0, selected_set: Vec::new(), selection_anchor: None, grouped_by_album: false }
}

#[test]
fn album_labels_with_and_without_year() {
    assert_eq!(label_for(&album("Abbey Road", "The Beatles", Some(1969)), false), "Abbey Road  (1969)  - The Beatles");
    assert_eq!(label_for(&album("Abbey Road", "The Beatles", None), false), "Abbey Road  - The Beatles");
    assert_eq!(label_for(&album(" Padded \u{FE0F}", "Artist", None), false), "Padded  - Artist");
}

#[test]
fn track_labels_number_or_artist() {
    assert_eq!(label_for(&track_item("Come Together", None, Some(1), 259_000), false), "01. Come Together   4:19");
    assert_eq!(label_for(&track_item("Old Queen Cole", Some("Ween"), Some(14), 754_000), true), "Ween - Old Queen Cole  12:34");
    assert_eq!(label_for(&track_item("Old Queen Cole", Some("Ween"), Some(14), 754_000), false), "14. Old Queen Cole  12:34");
    assert_eq!(label_for(&track_item("Untitled", Some(""), None, 5_000), true), "Untitled   0:05");
}

#[test]
fn virtual_row_labels() {
    let name = s("Ween");
    assert_eq!(label_for(&BrowseItem::AllTracks { artist_key: s("a"), artist_name: name.clone() }, false), "All Tracks - Ween");
    assert_eq!(label_for(&BrowseItem::AllArtists, false), "All Artists");
    assert_eq!(label_for(&BrowseItem::ArtistRadio { artist_key: s("a"), artist_name: name.clone() }, false), "Artist Radio - Ween");
    assert_eq!(label_for(&BrowseItem::Compilations, false), "Compilations");
    assert_eq!(
        label_for(&BrowseItem::CompilationTracks { artist_key: s("a"), artist_name: name.clone() }, false),
        "Compilation Tracks - Ween"
    );
    assert_eq!(action_label_for(&BrowseItem::ArtistRadio { artist_key: s("a"), artist_name: s(" Ween ") }), "Artist Radio - Ween");
    assert_eq!(action_label_for(&BrowseItem::Compilations), "Compilations");
    assert_eq!(action_label_for(&BrowseItem::AllArtists), "");
}

#[test]
fn row_heights() {
    let radio = BrowseItem::ArtistRadio { artist_key: s("a"), artist_name: s("n") };
    assert!(is_action_item(&radio));
    assert_eq!(row_height_for(&radio, true), ROW_H_ACTION);
    assert_eq!(row_height_for(&album("x", "y", None), true), ROW_H_ART);
    assert_eq!(row_height_for(&album("x", "y", None), false), ROW_H_TEXT);
    let artist = BrowseItem::Artist { key: s("k"), title: s("t") };
    assert!(!has_art_thumb(&artist));
    assert_eq!(row_height_for(&artist, true), ROW_H_TEXT);
    assert_eq!((ROW_H_TEXT, ROW_H_ART, ROW_H_ACTION), (26, 132, 34));
}

#[test]
fn art_keys() {
    assert_eq!(art_key_for(&album("x", "y", None)), Some(s("al1")));
    assert_eq!(art_thumb_path_for(&album("x", "y", None)), Some(s("/thumb/al1")));
    let all = BrowseItem::AllTracks { artist_key: s("ar9"), artist_name: s("n") };
    assert_eq!(art_key_for(&all), Some(s("ar9")));
    assert_eq!(art_thumb_path_for(&all), None);
    assert_eq!(art_key_for(&BrowseItem::Artist { key: s("k"), title: s("t") }), None);
}

#[test]
fn search_query_prefers_full_track() {
    let item = BrowseItem::Track {
        key: s("t1"),
        title: s("Song"),
        artist_name: Some(s("RowArtist")),
        album_name: Some(s("RowAlbum")),
        track_number: None,
        duration_ms: 0,
    };
    let col = column(vec![item.clone()], vec![info("Full", "Album", None, None)]);
    assert_eq!(external_search_query_for_item(&item, &col, 0), Some(s("Full - Album")));
    let col2 = column(vec![item.clone()], vec![info("", "Album", None, None)]);
    assert_eq!(external_search_query_for_item(&item, &col2, 0), Some(s("RowArtist - RowAlbum")));
    let bare = track_item("Song", None, None, 0);
    assert_eq!(external_search_query_for_item(&bare, &column(vec![], vec![]), 0), Some(s("Song")));
}

#[test]
fn search_query_other_rows() {
    let col = column(vec![], vec![]);
    assert_eq!(external_search_query_for_item(&album("Title", "Artist", None), &col, 0), Some(s("Artist - Title")));
    assert_eq!(external_search_query_for_item(&album("Title", "", None), &col, 0), Some(s("Title")));
    assert_eq!(external_search_query_for_item(&BrowseItem::Artist { key: s("k"), title: s("Ween") }, &col, 0), Some(s("Ween")));
    let empty_all = BrowseItem::AllTracks { artist_key: s("k"), artist_name: s("") };
    assert_eq!(external_search_query_for_item(&empty_all, &col, 0), None);
    assert_eq!(external_search_query_for_item(&BrowseItem::Compilations, &col, 0), None);
}

#[test]
fn open_in_library_targets() {
    let t = info("Ween", "Chocolate and Cheese", Some("ar1"), Some("al1"));
    let target = open_in_library_for_track_obj(&t).unwrap();
    assert_eq!(target.artist_key, "ar1");
    assert_eq!(target.artist_name, "Ween");
    assert_eq!(target.album_key, Some(s("al1")));
    assert_eq!(target.album_title, Some(s("Chocolate and Cheese")));
    assert!(open_in_library_for_track_obj(&info("Ween", "x", None, Some("al1"))).is_none());
    let col = column(vec![], vec![t.clone(), info("Ween", "x", Some("ar1"), None)]);
    assert!(open_in_library_for_track(&col, 0).is_some());
    assert!(open_in_library_for_track(&col, 1).is_none());
    assert!(open_in_library_for_track(&col, 2).is_none());
}
