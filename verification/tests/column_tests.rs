use textamp::browse::BrowseItem;
use textamp::column::{column_header, column_rows, HeaderAction};

fn s(x: &str) -> String {
    x.to_string()
}

fn albums_with_radio() -> Vec<BrowseItem> {
    vec![
        BrowseItem::AllTracks { artist_key: s("ar1"), artist_name: s("Low") },
        BrowseItem::ArtistRadio { artist_key: s("ar1"), artist_name: s("Low") },
        BrowseItem::Album { key: s("al1"), title: s("Things We Lost"), artist: s("Low"), year: Some(2001), thumb: None },
    ]
}

#[test]
fn album_tracks_header_drops_prefix_and_plays_album() {
    let h = column_header("  tracks \u{2014} Things We Lost ", &Some((s("al1"), s("Things We Lost"))), &None, &vec![]);
    assert_eq!(h.title, "Things We Lost");
    assert!(!h.show_track_artist);
    assert!(matches!(h.action, Some(HeaderAction::PlayAlbum { ref key, ref title }) if key == "al1" && title == "Things We Lost"));
}

#[test]
fn all_tracks_header_and_radio_header() {
    let h = column_header("tracks \u{2014} everything", &None, &Some(s("Play All")), &albums_with_radio());
    assert_eq!(h.title, "tracks \u{2014} everything");
    assert!(h.show_track_artist);
    assert!(matches!(h.action, Some(HeaderAction::PlayAll { ref label }) if label == "Play All"));
    let h = column_header("Low", &None, &None, &albums_with_radio());
    assert!(matches!(h.action, Some(HeaderAction::ArtistRadio { row: 1 })));
    let h = column_header("artists", &None, &None, &vec![]);
    assert!(h.action.is_none());
}

#[test]
fn column_rows_skip_hoisted_radio_row() {
    let (rows, none) = column_rows(3, None, Some(1));
    assert_eq!(rows, vec![0, 2]);
    assert!(!none);
    let matched = vec![2, 1];
    let (rows, none) = column_rows(3, Some(&matched), Some(1));
    assert_eq!(rows, vec![2]);
    assert!(!none);
    let empty: Vec<usize> = vec![];
    let (rows, none) = column_rows(3, Some(&empty), None);
    assert!(rows.is_empty());
    assert!(none);
    let (rows, _) = column_rows(4, None, None);
    assert_eq!(rows, vec![0, 1, 2, 3]);
}
