use textamp::action::{Action, DjMode};
use textamp::tools::{
    adventure_panel_rows, card_line, AdventureDrill, PanelRow, dj_rows, generate_enabled, parse_track_count, pick_label, remix_entries, reverse_enabled,
};

#[test]
fn track_count_parses_like_usize() {
    assert_eq!(parse_track_count("20"), Some(20));
    assert_eq!(parse_track_count("+7"), Some(7));
    assert_eq!(parse_track_count("007"), Some(7));
    assert_eq!(parse_track_count(""), None);
    assert_eq!(parse_track_count("-3"), None);
    assert_eq!(parse_track_count(" 5"), None);
    assert_eq!(parse_track_count("18446744073709551615"), Some(usize::MAX));
    assert_eq!(parse_track_count("18446744073709551616"), None);
}

#[test]
fn launcher_buttons() {
    assert!(generate_enabled(true, true, "20"));
    assert!(generate_enabled(true, true, "5"));
    assert!(!generate_enabled(true, true, "4"));
    assert!(!generate_enabled(true, true, "abc"));
    assert!(!generate_enabled(true, false, "20"));
    assert!(reverse_enabled(false, true));
    assert!(!reverse_enabled(false, false));
    assert_eq!(card_line(Some(("Song", "Ween"))), "Song  \u{2014} Ween");
    assert_eq!(card_line(None), "(not selected)");
    assert_eq!(pick_label(true), "Change\u{2026}");
    assert_eq!(pick_label(false), "Pick\u{2026}");
}

#[test]
fn remix_list_swaps_shuffle_for_undo() {
    let e = remix_entries(false);
    assert_eq!(e.len(), 5);
    assert_eq!(e[0].label, "Remix: Gemini");
    assert_eq!(e[4].label, "Remix: Shuffle");
    assert!(matches!(e[4].action, Action::RemixShuffle));
    let e = remix_entries(true);
    assert_eq!(e[4].label, "Undo Shuffle");
    assert_eq!(e[4].description, "Restore the queue to its pre-shuffle order");
    assert!(matches!(e[4].action, Action::RemixUndoShuffle));
}

#[test]
fn dj_mode_rows_mark_the_active_mode() {
    let r = dj_rows(Some(DjMode::Freeze));
    assert_eq!(r.len(), 6);
    assert_eq!(r[2], (DjMode::Freeze, true));
    assert!(r.iter().filter(|(_, a)| *a).count() == 1);
    assert!(dj_rows(None).iter().all(|(_, a)| !*a));
}


fn panel(rows: &[PanelRow]) -> Vec<String> {
    rows.iter()
        .map(|r| match r {
            PanelRow::Header(h) => format!("H:{}", h),
            PanelRow::Result { label, index, selected } => format!("R:{}:{}:{}", label, index, selected),
            PanelRow::Note(n) => format!("N:{}", n),
        })
        .collect()
}

#[test]
fn adventure_search_panel_rows() {
    let found = AdventureDrill::Search {
        tracks: Some(vec![("A".to_string(), "X".to_string()), ("B".to_string(), "Y".to_string())]),
        loading: false,
        query_empty: false,
    };
    assert_eq!(
        panel(&adventure_panel_rows(&found, 1)),
        vec!["R:A  \u{2014} X:0:false".to_string(), "R:B  \u{2014} Y:1:true".to_string()]
    );
    let none = AdventureDrill::Search { tracks: Some(Vec::new()), loading: false, query_empty: false };
    assert_eq!(panel(&adventure_panel_rows(&none, 0)), vec!["N:No matching tracks.".to_string()]);
    let pending = AdventureDrill::Search { tracks: None, loading: true, query_empty: false };
    assert_eq!(panel(&adventure_panel_rows(&pending, 0)), vec!["N:Searching\u{2026}".to_string()]);
    let idle = AdventureDrill::Search { tracks: None, loading: false, query_empty: true };
    assert_eq!(panel(&adventure_panel_rows(&idle, 0)), vec!["N:Type to search for a track\u{2026}".to_string()]);
    let typed = AdventureDrill::Search { tracks: None, loading: false, query_empty: false };
    assert_eq!(panel(&adventure_panel_rows(&typed, 0)), vec!["N:Press Enter to search.".to_string()]);
}

#[test]
fn adventure_drill_panels_have_headers() {
    let albums = AdventureDrill::ArtistAlbums { artist_name: "Ween".to_string(), albums: vec!["Mollusk".to_string()] };
    assert_eq!(
        panel(&adventure_panel_rows(&albums, 0)),
        vec!["H:\u{2014} Albums \u{2014} Ween \u{2014}".to_string(), "R:Mollusk:0:true".to_string()]
    );
    let tracks = AdventureDrill::AlbumTracks {
        album_title: "Mollusk".to_string(),
        artist_name: "Ween".to_string(),
        tracks: vec![("Polka Dot Tail".to_string(), "Ween".to_string())],
    };
    assert_eq!(
        panel(&adventure_panel_rows(&tracks, 3)),
        vec![
            "H:\u{2014} Tracks \u{2014} Ween / Mollusk \u{2014}".to_string(),
            "R:Polka Dot Tail  \u{2014} Ween:0:false".to_string(),
        ]
    );
}
