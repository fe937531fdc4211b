use iced::advanced::image::Handle;
use textamp::artcache::{
    clear_handle_cache, gate_after_input, gate_reopens, handle_from_bytes, lookup_grid, raw_key, HandleCache, MotionKind,
    SliceId, ART_LOAD_PAUSE_MS,
};
use textamp::browse::BrowseCategory;
use textamp::category::{category_column, playlist_is_pinned, CategoryColumnRow, CategoryColumnState, PlaylistEntry};

#[test]
fn handle_cache_insert_get_clear() {
    let mut c: HandleCache<u32> = HandleCache::new();
    let a = SliceId { ptr: 100, len: 10 };
    let b = SliceId { ptr: 200, len: 10 };
    assert!(c.get("k", a).is_none());
    c.insert("k", a, 1);
    c.insert("j", b, 2);
    assert_eq!(c.get("k", a), Some(&1));
    assert!(c.get("k", b).is_none());
    c.insert("k", b, 3);
    assert_eq!(c.get("k", b), Some(&3));
    assert!(c.get("k", a).is_none());
    assert_eq!(c.get("j", b), Some(&2));
    clear_handle_cache(&mut c);
    assert!(c.get("j", b).is_none());
    assert!(c.get("k", b).is_none());
}

#[test]
fn raw_key_format() {
    assert_eq!(raw_key(SliceId { ptr: 4096, len: 12 }), "__raw_4096_12");
    assert_eq!(raw_key(SliceId { ptr: 0, len: 0 }), "__raw_0_0");
}

#[test]
fn lookup_grid_reuses_handle_for_same_slice() {
    let bytes = vec![1u8, 2, 3, 4];
    let id = SliceId { ptr: 1, len: 4 };
    let mut cache: HandleCache<Handle> = HandleCache::new();
    let h1 = lookup_grid(&mut cache, "art", id, &bytes);
    let h2 = lookup_grid(&mut cache, "art", id, &bytes);
    assert_eq!(h1.id(), h2.id());
    let moved = SliceId { ptr: 2, len: 4 };
    let h3 = lookup_grid(&mut cache, "art", moved, &bytes);
    assert_ne!(h1.id(), h3.id());
    assert_eq!(cache.get("art", moved).map(|h| h.id()), Some(h3.id()));
    let r1 = handle_from_bytes(&mut cache, id, &bytes);
    let r2 = handle_from_bytes(&mut cache, id, &bytes);
    assert_eq!(r1.id(), r2.id());
    assert_eq!(cache.get("__raw_1_4", id).map(|h| h.id()), Some(r1.id()));
}

#[test]
fn pinned_playlists() {
    assert!(playlist_is_pinned("Recently Added"));
    assert!(playlist_is_pinned("RECENTLY ADDED"));
    assert!(!playlist_is_pinned("Recently Added Mix"));
    assert!(playlist_is_pinned("\u{2764}\u{FE0F} Tracks"));
    assert!(playlist_is_pinned("My \u{2665}"));
    assert!(playlist_is_pinned("\u{1F90D}"));
    assert!(!playlist_is_pinned("Road Trip"));
}

fn st(cat: BrowseCategory, hidden: Vec<BrowseCategory>) -> CategoryColumnState {
    CategoryColumnState {
        browse_category: cat,
        category_column_focused: true,
        category_column_index: 1,
        hidden,
        active_playlist_key: Some("p2".to_string()),
    }
}

fn pl(key: &str, title: &str) -> Option<PlaylistEntry> {
    Some(PlaylistEntry { key: key.to_string(), title: title.to_string() })
}

#[test]
fn category_column_rows() {
    let all = vec![
        BrowseCategory::Library,
        BrowseCategory::Playlists,
        BrowseCategory::Genres,
        BrowseCategory::Folders,
    ];
    let playlists = vec![pl("p1", "\u{2764} Loved"), None, pl("p2", "Road Trip"), pl("p3", "Chill")];
    let rows = category_column(&all, &playlists, &st(BrowseCategory::Genres, vec![]));
    assert_eq!(
        rows,
        vec![
            CategoryColumnRow::Category { cat: BrowseCategory::Library, selected: false, highlighted: false },
            CategoryColumnRow::Category { cat: BrowseCategory::Genres, selected: true, highlighted: true },
            CategoryColumnRow::Category { cat: BrowseCategory::Folders, selected: false, highlighted: false },
            CategoryColumnRow::Divider,
            CategoryColumnRow::Playlist { index: 0, active: false },
            CategoryColumnRow::Divider,
            CategoryColumnRow::Playlist { index: 2, active: false },
            CategoryColumnRow::Playlist { index: 3, active: false },
        ]
    );
    let rows = category_column(&all, &playlists, &st(BrowseCategory::Playlists, vec![BrowseCategory::Genres]));
    assert_eq!(
        rows,
        vec![
            CategoryColumnRow::Category { cat: BrowseCategory::Library, selected: false, highlighted: false },
            CategoryColumnRow::Category { cat: BrowseCategory::Folders, selected: false, highlighted: false },
            CategoryColumnRow::Divider,
            CategoryColumnRow::Playlist { index: 0, active: false },
            CategoryColumnRow::Divider,
            CategoryColumnRow::Playlist { index: 2, active: true },
            CategoryColumnRow::Playlist { index: 3, active: false },
        ]
    );
    let rows = category_column(&all, &playlists, &st(BrowseCategory::Library, vec![BrowseCategory::Playlists]));
    assert_eq!(rows.len(), 3);
    assert!(category_column(&Vec::new(), &Vec::new(), &st(BrowseCategory::Library, vec![])).is_empty());
}

#[test]
fn art_gate_holds_during_rapid_motion_and_reopens_after_rest() {
    assert!(gate_after_input(false, MotionKind::RapidNavigation));
    assert!(!gate_after_input(true, MotionKind::DeliberateClick));
    assert!(gate_after_input(true, MotionKind::Other));
    assert!(!gate_after_input(false, MotionKind::Other));
    assert_eq!(ART_LOAD_PAUSE_MS, 1000);
    assert!(!gate_reopens(true, 999));
    assert!(gate_reopens(true, 1000));
    assert!(!gate_reopens(false, 5000));
}
