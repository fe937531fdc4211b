use textamp::layout::{
    calculate_scroll_offset, center_offset, columns_plan, selectable_window, ColumnsPlan, reveal_offset, row_window, visible_window, RowWindow, BUFFER_ROWS,
};

#[test]
fn row_window_buffers_around_viewport() {
    let heights = vec![26u32; 20];
    assert_eq!(BUFFER_ROWS, 6);
    assert_eq!(
        row_window(&heights, 260, 520),
        RowWindow { first: 4, last: 20, top_spacer: 104, bottom_spacer: 0 }
    );
    assert_eq!(
        row_window(&heights, 0, 100),
        RowWindow { first: 0, last: 10, top_spacer: 0, bottom_spacer: 260 }
    );
}

#[test]
fn row_window_mixed_heights_and_empty_list() {
    // Two art rows (72) then text rows (26).
    let mut heights = vec![72u32, 72];
    heights.extend(std::iter::repeat(26u32).take(18));
    let w = row_window(&heights, 200, 300);
    // Row 4 starts at 196 <= 200; row 8 starts at 300, so rows 0..8 are on screen.
    assert_eq!(w, RowWindow { first: 0, last: 14, top_spacer: 0, bottom_spacer: 156 });
    assert_eq!(row_window(&Vec::new(), 0, 100), RowWindow { first: 0, last: 0, top_spacer: 0, bottom_spacer: 0 });
}

#[test]
fn scroll_offset_centres_selection() {
    assert_eq!(calculate_scroll_offset(10, 5, 100), 8);
    assert_eq!(calculate_scroll_offset(1, 5, 100), 0);
    assert_eq!(calculate_scroll_offset(98, 5, 100), 95);
    assert_eq!(calculate_scroll_offset(3, 10, 4), 0);
    assert_eq!(calculate_scroll_offset(3, 0, 4), 0);
    assert_eq!(calculate_scroll_offset(0, 5, 0), 0);
}

#[test]
fn visible_window_keeps_focus_and_deepest_column() {
    assert_eq!(visible_window(5, 4, 3), (2, 5));
    assert_eq!(visible_window(5, 0, 3), (0, 3));
    assert_eq!(visible_window(2, 1, 3), (0, 2));
    assert_eq!(visible_window(0, 0, 3), (0, 0));
}

#[test]
fn reveal_scrolls_just_enough() {
    let heights = vec![26u32; 20];
    // Row 3 spans [78, 104): inside [50, 150) already.
    assert_eq!(reveal_offset(&heights, 3, 50, 100, 0), None);
    // Row 1 spans [26, 52): above the viewport top 50 -> scroll to 26.
    assert_eq!(reveal_offset(&heights, 1, 50, 100, 0), Some((26, 420)));
    // Row 10 spans [260, 286): below 150 -> bottom edge at the viewport bottom.
    assert_eq!(reveal_offset(&heights, 10, 50, 100, 0), Some((186, 420)));
    // Known content height caps the offset.
    assert_eq!(reveal_offset(&heights, 19, 0, 100, 300), Some((200, 200)));
    assert_eq!(reveal_offset(&heights, 19, 0, 0, 0), None);
    assert_eq!(reveal_offset(&Vec::new(), 0, 0, 100, 0), None);
}

#[test]
fn center_in_half_pixels() {
    let heights = vec![26u32; 20];
    // Row 10's middle is at 273; minus half of 100 -> 223, doubled 446.
    assert_eq!(center_offset(&heights, 10, 100), Some((446, 840)));
    assert_eq!(center_offset(&heights, 0, 100), Some((0, 840)));
    assert_eq!(center_offset(&heights, 19, 100), Some((840, 840)));
    assert_eq!(center_offset(&heights, 5, 1000), Some((0, 0)));
    assert_eq!(center_offset(&heights, 5, 0), None);
}

#[test]
fn miller_area_plan() {
    assert_eq!(columns_plan(None, false, false, 0, false, 3), ColumnsPlan::Loading);
    assert_eq!(columns_plan(Some(0), false, false, 0, false, 3), ColumnsPlan::Loading);
    assert_eq!(columns_plan(Some(1), false, true, 0, false, 3), ColumnsPlan::PickPlaylist);
    assert_eq!(columns_plan(Some(1), true, true, 0, false, 3), ColumnsPlan::Loading);
    assert_eq!(
        columns_plan(Some(6), false, true, 5, false, 3),
        ColumnsPlan::Show { offset: 1, start: 2, end: 5, focused: Some(4) }
    );
    assert_eq!(
        columns_plan(Some(4), false, false, 0, true, 2),
        ColumnsPlan::Show { offset: 0, start: 0, end: 2, focused: None }
    );
}

#[test]
fn terminal_list_window() {
    assert_eq!(selectable_window(10, 5, 100), (8, 13));
    assert_eq!(selectable_window(98, 5, 100), (95, 100));
    assert_eq!(selectable_window(2, 10, 4), (0, 4));
    assert_eq!(selectable_window(0, 5, 0), (0, 0));
}

#[test]
fn visible_window_takes_any_width_and_focus() {
    assert_eq!(visible_window(4, 2, usize::MAX), (0, 4));
    assert_eq!(visible_window(4, usize::MAX - 1, usize::MAX), (0, 4));
    assert_eq!(visible_window(2, 5, 1), (5, 2));
    assert_eq!(visible_window(3, usize::MAX, 2), (usize::MAX - 1, 3));
}
