use textamp::details::{
    album_display, album_year_label, playlist_display, track_display, dash_row, duration_line, empty_message, file_basename, file_line, similar_title,
    track_number_line, SimilarMode,
};
use textamp::queue::{queue_header, queue_row_label, row_look, RowLook};
use textamp::search::{header_label, palette_rows, search_rows, SearchResults, SearchRow, SearchSection, SearchTab};
use textamp::stations::{breadcrumb, station_rows, StationEntry, StationKind};

fn s(x: &str) -> String {
    x.to_string()
}

fn results() -> SearchResults {
    SearchResults {
        artists: vec![s("Ween")],
        albums: vec![(s("Pure Guava"), Some(s("Ween"))), (s("Mollusk"), None)],
        playlists: Vec::new(),
        genres: vec![s("Rock")],
        tracks: vec![(s("Push th' Little Daisies"), s("Ween"))],
    }
}

fn describe(rows: &[SearchRow]) -> Vec<String> {
    rows.iter()
        .map(|r| match r {
            SearchRow::Header(sec) => format!("H:{:?}", sec),
            SearchRow::Result { label, index, selected } => format!("R:{}:{}:{}", label, index, selected),
            SearchRow::NoResults => s("none"),
            SearchRow::TypeToSearch => s("type"),
            SearchRow::Searching => s("searching"),
        })
        .collect()
}

#[test]
fn global_tab_lists_every_section_with_headers() {
    let r = results();
    assert_eq!(
        describe(&search_rows(SearchTab::Global, Some(&r), false, 2)),
        vec![
            s("H:Artists"),
            s("R:  Ween:0:false"),
            s("H:Albums"),
            s("R:  Pure Guava  \u{2014} Ween:1:false"),
            s("R:  Mollusk  \u{2014} :2:true"),
            s("H:Genres"),
            s("R:  Rock:3:false"),
            s("H:Tracks"),
            s("R:  Push th' Little Daisies  \u{2014} Ween:4:false"),
        ]
    );
}

#[test]
fn single_tab_numbers_from_zero_without_headers() {
    let r = results();
    assert_eq!(describe(&search_rows(SearchTab::Tracks, Some(&r), false, 0)), vec![s("R:  Push th' Little Daisies  \u{2014} Ween:0:true")]);
    assert_eq!(describe(&search_rows(SearchTab::Playlists, Some(&r), false, 0)), vec![s("none")]);
    assert_eq!(describe(&search_rows(SearchTab::Global, None, true, 0)), vec![s("type")]);
    assert_eq!(describe(&search_rows(SearchTab::Global, None, false, 0)), vec![s("searching")]);
    assert_eq!(header_label(SearchSection::Albums), "\u{2014} Albums \u{2014}");
}

#[test]
fn palette_skips_stale_matches() {
    assert_eq!(palette_rows(&vec![3, 9, 0, 1], 4, 2), vec![(3, false), (0, true), (1, false)]);
    assert!(palette_rows(&Vec::new(), 4, 0).is_empty());
}

#[test]
fn station_rows_and_breadcrumb() {
    let col = vec![
        StationEntry { key: s("dj"), title: s("DJ Stretch"), kind: StationKind::DjMode },
        StationEntry { key: s("lib"), title: s("Library Radio"), kind: StationKind::Station },
        StationEntry { key: s("sep"), title: s("-"), kind: StationKind::Separator },
        StationEntry { key: s("moods"), title: s("Moods"), kind: StationKind::Category },
    ];
    let rows = station_rows(&col, 3, Some("lib"));
    let v: Vec<(usize, String, bool, bool, bool)> =
        rows.iter().map(|r| (r.index, r.label.clone(), r.selected, r.active, r.drill)).collect();
    assert_eq!(
        v,
        vec![
            (1, s("\u{266A} Library Radio"), false, true, false),
            (3, s("  Moods  \u{203A}"), true, false, true),
        ]
    );
    assert!(station_rows(&col[..1].to_vec(), 0, None).is_empty());
    let titles = vec![s("Radio"), s("Moods"), s("Chill")];
    assert_eq!(breadcrumb(&titles, 1), "Radio  \u{203A}  Moods");
    assert_eq!(breadcrumb(&titles, 7), "Radio  \u{203A}  Moods  \u{203A}  Chill");
    assert_eq!(breadcrumb(&Vec::new(), 0), "Radio");
}

#[test]
fn queue_row_text_and_look() {
    assert_eq!(queue_row_label(true, false, "Song", "Band", 65_000), "> Song  - Band  - 1:05");
    assert_eq!(queue_row_label(true, true, "Song", "Band", 3_723_000), "\u{266A}\u{25CF}Song  - Band  - 1:02:03");
    assert_eq!(queue_row_label(false, true, "A", "B", 0), "\u{25CF} A  - B  - 0:00");
    assert_eq!(queue_row_label(false, false, "A", "B", 0), "  A  - B  - 0:00");
    assert_eq!(queue_header(false, 12), " queue \u{2014} 12 tracks ");
    assert_eq!(queue_header(true, 0), " radio \u{2014} 0 tracks ");
    assert_eq!(row_look(true, true, true, true), RowLook::Dragging);
    assert_eq!(row_look(false, true, true, true), RowLook::Current);
    assert_eq!(row_look(false, false, true, true), RowLook::Multi);
    assert_eq!(row_look(false, false, false, true), RowLook::Focused);
    assert_eq!(row_look(false, false, false, false), RowLook::Plain);
}

#[test]
fn track_pane_lines() {
    assert_eq!(album_year_label(Some("Guava"), Some(1992)), "Guava  (1992)");
    assert_eq!(album_year_label(Some("Guava"), None), "Guava");
    assert_eq!(album_year_label(None, Some(1992)), "1992");
    assert_eq!(album_year_label(None, None), "");
    assert_eq!(duration_line(185_000), "Duration: 3:05");
    assert_eq!(duration_line(3_723_000), "Duration: 62:03");
    assert_eq!(track_number_line(7), "Track #7");
    assert_eq!(file_basename("/music/Ween/01 Song.flac"), "01 Song.flac");
    assert_eq!(file_basename("C:\\music\\a.mp3"), "a.mp3");
    assert_eq!(file_basename("plain.ogg"), "plain.ogg");
    assert_eq!(file_basename("dir/"), "");
    assert_eq!(file_line("a/b/c.wav"), "File: c.wav");
}

#[test]
fn similar_popup_text() {
    assert_eq!(similar_title(SimilarMode::Albums, "Pure Guava"), "Similar Albums \u{2014} Pure Guava");
    assert_eq!(similar_title(SimilarMode::Artists, ""), "Similar Artists \u{2014} (no source)");
    assert_eq!(empty_message(SimilarMode::Tracks), "No similar tracks found.");
    assert_eq!(dash_row("Mollusk", None), "Mollusk  \u{2014} ");
    assert_eq!(dash_row("Song", Some("Ween")), "Song  \u{2014} Ween");
}

#[test]
fn terminal_list_labels() {
    assert_eq!(album_display("Ween", "Mollusk", Some(1997)), "Ween - Mollusk (1997)");
    assert_eq!(album_display("Ween", "Mollusk", None), "Ween - Mollusk");
    assert_eq!(track_display("Ween", "Ocean Man"), "Ween - Ocean Man");
    assert_eq!(playlist_display("Road", 12), "Road (12 tracks)");
}
