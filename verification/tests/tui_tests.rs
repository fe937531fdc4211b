use textamp::action::AppView;
use textamp::transport::{NowPlayingInfo, PlayStatus};
use textamp::tui::{
    desktop_track_lines, now_playing_lines, track_table_row, TableRowLook,
    play_button_label, position_clock, position_footer, status_symbol, tab_strip, transport_gap,
    transport_left_budget, transport_regions, Region, TransportRegions,
};

fn r(x: u16, y: u16, width: u16) -> Region {
    Region { x, y, width, height: 1 }
}

#[test]
fn footer_and_symbols() {
    assert_eq!(position_footer(0, 12), " 1 / 12 ");
    assert_eq!(position_footer(41, 42), " 42 / 42 ");
    assert_eq!(status_symbol(PlayStatus::Playing), "\u{25B6}");
    assert_eq!(status_symbol(PlayStatus::Stopped), "\u{23F9}");
    assert_eq!(play_button_label(PlayStatus::Playing), "||");
    assert_eq!(play_button_label(PlayStatus::Buffering), "...");
    assert_eq!(position_clock(65_000, 272_000), "01:05 / 04:32");
}

#[test]
fn transport_row_budget_and_gap() {
    assert_eq!(transport_left_budget(80, 8), 69);
    assert_eq!(transport_left_budget(5, 8), 0);
    assert_eq!(transport_gap(80, 50, 8), 20);
    assert_eq!(transport_gap(10, 50, 8), 0);
}

#[test]
fn transport_hit_regions() {
    assert_eq!(
        transport_regions(2, 0, 50, 10, 8),
        TransportRegions {
            play_pause: r(2, 0, 5),
            seekbar: r(11, 0, 20),
            prev_track: r(37, 0, 3),
            next_track: r(40, 0, 3),
            track_info: r(47, 0, 15),
            search_icon: r(62, 0, 8),
        }
    );
    // A short playback text leaves no room for the track text region.
    assert_eq!(transport_regions(0, 3, 10, 0, 4).track_info, r(45, 3, 0));
}

#[test]
fn terminal_tab_strip() {
    let t = tab_strip(0, 5, 80, 1, AppView::Queue).unwrap();
    assert_eq!(t.library, r(0, 5, 9));
    assert_eq!(t.divider, r(9, 5, 1));
    assert_eq!(t.now_playing, r(10, 5, 13));
    assert_eq!(t.hints, r(59, 5, 21));
    assert!(!t.library_active);
    assert!(t.now_playing_active);
    assert!(tab_strip(0, 5, 80, 0, AppView::Browse).is_none());
    assert!(tab_strip(0, 5, 80, 2, AppView::Browse).unwrap().library_active);
}

#[test]
fn desktop_transport_track_lines() {
    let t = NowPlayingInfo { title: "Ode".to_string(), file_name: None, artist: "Low".to_string(), album: "Drums".to_string() };
    let (a, b) = desktop_track_lines(Some(&t));
    assert_eq!(a, "Ode");
    assert_eq!(b, "Low  \u{2014}  Drums");
    let (a, b) = desktop_track_lines(None);
    assert_eq!(a, "No track");
    assert_eq!(b, "  \u{2014}  ");
}

#[test]
fn now_playing_metadata_lines() {
    let t = NowPlayingInfo { title: "Ode".to_string(), file_name: None, artist: "Low".to_string(), album: "Drums".to_string() };
    assert_eq!(
        now_playing_lines(Some(&t), Some(2005), 65_000, 3_600_000),
        vec!["Ode".to_string(), "Low".to_string(), "Drums  2005".to_string(), "1:05 / 1:00:00".to_string()]
    );
    assert_eq!(
        now_playing_lines(None, Some(2005), 0, 0),
        vec!["No track playing".to_string(), String::new(), "  ".to_string(), "0:00 / 0:00".to_string()]
    );
}

#[test]
fn terminal_track_table_rows() {
    let (cells, look) = track_table_row(true, true, 7, "Ode", "Low", 185_000);
    assert_eq!(cells, vec!["\u{25B6}7".to_string(), "Ode".to_string(), "Low".to_string(), "3:05".to_string()]);
    assert_eq!(look, TableRowLook::Playing);
    let (cells, look) = track_table_row(false, true, 12, "Ode", "Low", 59_999);
    assert_eq!(cells[0], " 12");
    assert_eq!(cells[3], "0:59");
    assert_eq!(look, TableRowLook::Selected);
    assert_eq!(track_table_row(false, false, 1, "a", "b", 0).1, TableRowLook::Plain);
}
