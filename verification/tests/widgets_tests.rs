use textamp::action::Action;
use textamp::pick::{album_pick_action, random_album_action, AlbumEntry};
use textamp::transport::{
    filter_box_text, FilterMatches,
    build_left_content, build_progress_bar, truncate_measured, truncate_to_width, NowPlayingInfo, PlayStatus,
};
use textamp::tui::{scrollbar_column, waveform_cells};
use textamp::vectorscope::{Vectorscope, BUFFER_LEN};
use textamp::viz::{
    tab_load, visualizer_tabs, viz_panel, Cell, Spectrogram, SpectrogramData, Spectrum, VisualizerTab, VizPanel,
};

#[test]
fn truncate_fits_or_ellipsizes() {
    assert_eq!(truncate_to_width("hello", 10), "hello");
    assert_eq!(truncate_to_width("hello", 5), "hello");
    assert_eq!(truncate_to_width("hello world", 5), "hell\u{2026}");
    assert_eq!(truncate_to_width("abc", 0), "");
    assert_eq!(truncate_to_width("abc", 1), "\u{2026}");
    assert_eq!(truncate_to_width("", 0), "");
}

#[test]
fn truncate_counts_wide_characters_twice() {
    // Each CJK character is two columns wide.
    assert_eq!(truncate_to_width("\u{65E5}\u{672C}\u{8A9E}", 6), "\u{65E5}\u{672C}\u{8A9E}");
    assert_eq!(truncate_to_width("\u{65E5}\u{672C}\u{8A9E}", 5), "\u{65E5}\u{672C}\u{2026}");
    assert_eq!(truncate_to_width("\u{65E5}\u{672C}\u{8A9E}", 4), "\u{65E5}\u{2026}");
}

#[test]
fn truncate_measured_uses_given_widths() {
    let widths = vec![Some(2), None, Some(1), Some(1)];
    assert_eq!(truncate_measured("ab\u{7}c", 10, &widths, 3), "ab\u{2026}");
    assert_eq!(truncate_measured("abcd", 4, &widths, 4), "abcd");
}

#[test]
fn progress_bar_glyphs() {
    assert_eq!(build_progress_bar(0, 4), "\u{25CF}\u{2500}\u{2500}\u{2500}");
    assert_eq!(build_progress_bar(2, 4), "\u{2501}\u{2501}\u{25CF}\u{2500}");
    assert_eq!(build_progress_bar(4, 4), "\u{2501}\u{2501}\u{2501}\u{2501}");
    assert_eq!(build_progress_bar(9, 2), "\u{2501}\u{2501}");
    assert_eq!(build_progress_bar(0, 0), "");
}

#[test]
fn left_content_with_and_without_track() {
    let bar = build_progress_bar(10, 20);
    let t = NowPlayingInfo {
        title: "Song".to_string(),
        file_name: None,
        artist: "Band".to_string(),
        album: "Record".to_string(),
    };
    let line = build_left_content(PlayStatus::Playing, 65_000, 272_000, 10, Some(&t));
    assert_eq!(
        line,
        format!(" \u{23F8} 01:05 {} 04:32 \u{23EE}  \u{23ED}  \u{2502}  Song by Band from Record", bar)
    );
    let empty = build_left_content(PlayStatus::Stopped, 0, 0, 0, None);
    assert!(empty.starts_with(" \u{25B6} 00:00 "));
    assert!(empty.ends_with("\u{2502}  No track playing"));
    let untitled = NowPlayingInfo { title: String::new(), file_name: Some("a.flac".to_string()), ..t.clone() };
    assert!(build_left_content(PlayStatus::Buffering, 0, 0, 0, Some(&untitled)).contains("\u{25CC} 00:00"));
    assert!(build_left_content(PlayStatus::Paused, 0, 0, 0, Some(&untitled)).ends_with("a.flac by Band from Record"));
    let anon = NowPlayingInfo { title: String::new(), file_name: None, ..t };
    assert!(build_left_content(PlayStatus::Paused, 0, 0, 0, Some(&anon)).ends_with("Unknown Track by Band from Record"));
}

#[test]
fn scrollbar_rows() {
    assert_eq!(scrollbar_column(5, 10, 5, 2, 1), Some(vec!['\u{2502}', '\u{2588}', '\u{2588}', '\u{2502}', '\u{2502}']));
    assert_eq!(scrollbar_column(5, 10, 10, 2, 1), None);
    assert_eq!(scrollbar_column(0, 10, 5, 2, 1), None);
    assert_eq!(scrollbar_column(3, 0, 0, 1, 0), None);
}

#[test]
fn waveform_cells_pattern() {
    let cells = waveform_cells(4, 2);
    // heights (7i + 3i^2) mod 8 for i = 0..4: 0, 2, 2, 0
    assert_eq!(cells, vec![('\u{2581}', true), ('\u{2583}', true), ('\u{2583}', false), ('\u{2581}', false)]);
    assert!(waveform_cells(0, 3).is_empty());
}

fn data(bins: usize, frames: Vec<Vec<u8>>) -> SpectrogramData {
    SpectrogramData {
        duration_ms: 1000,
        bins_per_frame: bins,
        frame_count: frames.len(),
        frames: frames.into_iter().flatten().collect(),
    }
}

#[test]
fn spectrogram_cells_sample_frames_per_column() {
    let d = data(2, vec![vec![0, 5], vec![7, 0], vec![1, 1], vec![0, 0]]);
    let sg = Spectrogram { data: Some(&d), position_ms: 0 };
    // 4 frames over 2 columns: column c samples frame 2c.
    assert_eq!(
        sg.cells(2),
        vec![
            Cell { col: 0, bin: 1, level: 5 },
            Cell { col: 1, bin: 0, level: 1 },
            Cell { col: 1, bin: 1, level: 1 },
        ]
    );
    // More columns than frames: one frame per column, stopping after the last.
    assert_eq!(sg.cells(8).len(), 4);
    let none = Spectrogram { data: None, position_ms: 0 };
    assert!(none.cells(4).is_empty());
}

#[test]
fn spectrum_bar_levels_average_groups() {
    let mut frame: Vec<u8> = Vec::new();
    for i in 0..128u32 {
        frame.push((i % 4) as u8 * 10);
    }
    let d = data(128, vec![vec![0; 128], frame]);
    let sp = Spectrum { data: Some(&d), position_ms: 0 };
    let levels = sp.bar_levels(1);
    assert_eq!(levels.len(), 64);
    // Groups of two bins: (0 + 10) / 2 and (20 + 30) / 2.
    assert_eq!(levels[0], 5);
    assert_eq!(levels[1], 25);
    assert!(sp.bar_levels(0).iter().all(|&l| l == 0));
    assert!(sp.bar_levels(2).is_empty());
    let small = data(3, vec![vec![3, 6, 9]]);
    let sp = Spectrum { data: Some(&small), position_ms: 0 };
    assert_eq!(sp.bar_levels(0), vec![3, 6, 9]);
}

#[test]
fn album_pick() {
    let albums = vec![
        AlbumEntry { rating_key: "1".to_string(), title: "One".to_string() },
        AlbumEntry { rating_key: "2".to_string(), title: "Two".to_string() },
    ];
    let r = album_pick_action(&albums, Some(1));
    assert!(matches!(r, Ok(Action::PlayAlbumNow { ref rating_key, ref title }) if rating_key == "2" && title == "Two"));
    assert_eq!(album_pick_action(&albums, None).unwrap_err(), "No albums in library to pick from");
    assert_eq!(random_album_action(&Vec::new()).unwrap_err(), "No albums in library to pick from");
    for _ in 0..20 {
        match random_album_action(&albums) {
            Ok(Action::PlayAlbumNow { rating_key, title }) => {
                assert!((rating_key == "1" && title == "One") || (rating_key == "2" && title == "Two"));
            }
            _ => panic!("expected an album"),
        }
    }
}

#[test]
fn vectorscope_keeps_last_samples_in_order() {
    let mut v: Vectorscope<i32> = Vectorscope::new();
    assert!(v.ordered().is_empty());
    v.push_samples(&[1, 2, 3]);
    assert_eq!(v.ordered(), vec![1, 2, 3]);
    let big: Vec<i32> = (0..(BUFFER_LEN as i32 + 10)).collect();
    v.push_samples(&big);
    let o = v.ordered();
    assert_eq!(o.len(), BUFFER_LEN);
    assert_eq!(o[0], 10);
    assert_eq!(o[BUFFER_LEN - 1], BUFFER_LEN as i32 + 9);
    v.push_samples(&[-1, -2]);
    let o = v.ordered();
    assert_eq!(o[0], 12);
    assert_eq!(&o[BUFFER_LEN - 2..], &[-1, -2]);
}

#[test]
fn filter_box_pads_query_and_counts_matches() {
    let more = Some(FilterMatches { shown: 3, total: 10, has_more: true });
    let expected = format!("\u{1F50D} [abc\u{258B}{}] (3/10+)", " ".repeat(20));
    assert_eq!(filter_box_text("abc", false, true, more), expected);
    let none = Some(FilterMatches { shown: 0, total: 0, has_more: false });
    let expected = format!("\u{1F50D} [abc {}] (no matches)", " ".repeat(20));
    assert_eq!(filter_box_text("abc", false, false, none), expected);
    let all = Some(FilterMatches { shown: 7, total: 7, has_more: false });
    let expected = format!("\u{1F50D} [ab...{}] (7)", " ".repeat(19));
    assert_eq!(filter_box_text("ab", true, true, all), expected);
    let long = "x".repeat(30);
    assert_eq!(filter_box_text(&long, false, false, None), format!("\u{1F50D} [{} ]", long));
}

#[test]
fn visualizer_tabs_loads_and_panel() {
    let tabs = visualizer_tabs(VisualizerTab::Spectrum);
    let labels: Vec<&str> = tabs.iter().map(|t| t.label).collect();
    assert_eq!(labels, vec!["waveform", "spectrum", "spectrogram", "vectorscope"]);
    assert_eq!(tabs.iter().filter(|t| t.active).count(), 1);
    assert!(tabs[1].active);
    assert!(matches!(tab_load(VisualizerTab::Waveform), Some(Action::LoadWaveform)));
    assert!(matches!(tab_load(VisualizerTab::Spectrogram), Some(Action::LoadSpectrogram)));
    assert!(tab_load(VisualizerTab::Vectorscope).is_none());
    assert!(matches!(viz_panel(false, VisualizerTab::Vectorscope, true, false, true, false), VizPanel::Message("No track loaded")));
    assert!(matches!(viz_panel(true, VisualizerTab::Waveform, false, true, false, false), VizPanel::Message("Generating waveform\u{2026}")));
    assert!(matches!(viz_panel(true, VisualizerTab::Spectrum, true, false, false, false), VizPanel::Message("No spectrum data")));
    assert!(matches!(viz_panel(true, VisualizerTab::Spectrogram, false, false, true, false), VizPanel::Canvas(VisualizerTab::Spectrogram)));
    assert!(matches!(viz_panel(true, VisualizerTab::Vectorscope, false, false, false, false), VizPanel::Canvas(VisualizerTab::Vectorscope)));
}

#[test]
fn vectorscope_buffer_grows_to_its_length() {
    let mut v: Vectorscope<i32> = Vectorscope::new();
    assert_eq!(v.samples.len(), 0);
    v.push_samples(&[1, 2, 3]);
    assert_eq!(v.samples.len(), 3);
    let big: Vec<i32> = (0..3000).collect();
    v.push_samples(&big);
    assert_eq!(v.samples.len(), BUFFER_LEN);
    let ord = v.ordered();
    assert_eq!(ord.len(), BUFFER_LEN);
    assert_eq!(ord[BUFFER_LEN - 1], 2999);
    assert_eq!(ord[0], 3000 - BUFFER_LEN as i32);
}
