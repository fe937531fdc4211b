use textamp::cacheinfo::{cache_table, CacheFacts, CountCell, LibraryCounts, RefreshCategory, SizeCell};
use textamp::folders::{FolderColumn, FolderItem, FolderItemType, FolderNav};

fn counts() -> LibraryCounts {
    LibraryCounts { artists: 12, albums: 30, tracks: 0, playlists: 0, genres: 4, moods: 0, styles: 0, stations: 2, aliases: 0 }
}

fn facts() -> CacheFacts {
    CacheFacts {
        signed_in: true,
        counts: counts(),
        timestamps: vec![(RefreshCategory::Artists, 1_000), (RefreshCategory::Genres, 10_000)],
        refreshing: vec![RefreshCategory::Genres],
        library_stats: Some((5_000, vec![("artists".to_string(), 700), ("genres".to_string(), 90)])),
        folders: None,
        cached_listings: 0,
        crawling: false,
        artwork_stats: Some((3, 4_096)),
        waveform_stats: Some((0, 0)),
    }
}

fn labels(f: &CacheFacts) -> Vec<&'static str> {
    cache_table(f, 10_120).unwrap().rows.iter().map(|r| r.label).collect()
}

#[test]
fn signed_out_has_no_table() {
    let mut f = facts();
    f.signed_in = false;
    assert!(cache_table(&f, 0).is_none());
}

#[test]
fn empty_categories_are_skipped_but_tracks_show_loading() {
    let f = facts();
    assert_eq!(labels(&f), vec!["Artists", "Albums", "Tracks", "Genres", "Stations", "Artwork"]);
    let t = cache_table(&f, 10_120).unwrap();
    assert!(matches!(t.rows[2].count, CountCell::Loading));
    assert!(matches!(t.rows[0].count, CountCell::Number(12)));
    assert_eq!(t.total_bytes, 5_000 + 4_096);
}

#[test]
fn ages_sizes_and_refreshing() {
    let t = cache_table(&facts(), 10_120).unwrap();
    assert_eq!(t.rows[0].age, "2h");
    assert_eq!(t.rows[0].size, SizeCell::Bytes(700));
    assert_eq!(t.rows[1].age, "");
    assert_eq!(t.rows[1].size, SizeCell::Dash);
    assert_eq!(t.rows[3].age, "2m (refreshing)");
    assert_eq!(t.rows[3].size, SizeCell::Bytes(90));
    assert_eq!(t.rows[5].size, SizeCell::Bytes(4_096));
}

#[test]
fn folders_row_counts_cached_listings_and_root_folders() {
    let mut f = facts();
    let item = |k: &str, folder: bool| FolderItem {
        key: k.to_string(),
        title: k.to_string(),
        item_type: if folder { FolderItemType::Folder } else { FolderItemType::Track },
    };
    f.folders = Some(FolderNav {
        columns: vec![FolderColumn {
            title: "Music".to_string(),
            items: vec![item("a", true), item("b.mp3", false), item("c", true)],
            selected_index: 0,
        }],
        focused_column: 0,
    });
    f.cached_listings = 5;
    f.crawling = true;
    let t = cache_table(&f, 10_120).unwrap();
    let row = t.rows.iter().find(|r| r.label == "Folders").unwrap();
    assert!(matches!(&row.count, CountCell::Text(s) if s == "5/2"));
    assert_eq!(row.age, "crawling");
    assert_eq!(row.size, SizeCell::Dash);
    f.cached_listings = 0;
    let t = cache_table(&f, 10_120).unwrap();
    let row = t.rows.iter().find(|r| r.label == "Folders").unwrap();
    assert!(matches!(&row.count, CountCell::Text(s) if s == "2"));
}
