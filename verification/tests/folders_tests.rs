use textamp::action::Action;
use textamp::folders::{
    folder_row_click, folder_rows, highlighted_folder_column, FolderColumn, FolderItem, FolderItemType, FolderNav,
    FolderRow,
};

fn item(key: &str, title: &str, folder: bool) -> FolderItem {
    FolderItem {
        key: key.to_string(),
        title: title.to_string(),
        item_type: if folder { FolderItemType::Folder } else { FolderItemType::Track },
    }
}

fn column() -> FolderColumn {
    FolderColumn {
        title: "Music".to_string(),
        items: vec![item("/a", "Albums", true), item("/b.flac", "b.flac", false), item("/c", "Comps", true)],
        selected_index: 1,
    }
}

fn shown(rows: &[FolderRow]) -> Vec<(usize, String, bool, bool)> {
    rows.iter()
        .map(|r| match r {
            FolderRow::Item { row_index, label, is_selected, is_folder } => {
                (*row_index, label.clone(), *is_selected, *is_folder)
            },
            FolderRow::NoResults => (usize::MAX, "no results".to_string(), false, false),
        })
        .collect()
}

#[test]
fn folder_rows_without_filter_list_everything() {
    let rows = folder_rows(&column(), None);
    assert_eq!(
        shown(&rows),
        vec![
            (0, "Albums".to_string(), false, true),
            (1, "b.flac".to_string(), true, false),
            (2, "Comps".to_string(), false, true),
        ]
    );
}

#[test]
fn folder_rows_follow_filter_order_and_skip_missing_rows() {
    let matched = vec![2, 7, 0];
    let rows = folder_rows(&column(), Some(&matched));
    assert_eq!(shown(&rows), vec![(2, "Comps".to_string(), false, true), (0, "Albums".to_string(), false, true)]);
}

#[test]
fn folder_rows_with_empty_match_show_notice() {
    let matched: Vec<usize> = vec![];
    let rows = folder_rows(&column(), Some(&matched));
    assert_eq!(rows.len(), 1);
    assert!(matches!(rows[0], FolderRow::NoResults));
}

#[test]
fn highlighted_column_yields_to_other_focus() {
    assert_eq!(highlighted_folder_column(false, false, 2), Some(2));
    assert_eq!(highlighted_folder_column(true, false, 2), None);
    assert_eq!(highlighted_folder_column(false, true, 2), None);
}

#[test]
fn folder_click_focuses_selects_then_drills() {
    let mut fs = Some(FolderNav { columns: vec![column(), column()], focused_column: 0 });
    let r = folder_row_click(&mut fs, 1, 2, true);
    assert!(matches!(&r, Some(Action::NavigateIntoFolder(k)) if k == "/c"));
    let nav = fs.as_ref().unwrap();
    assert_eq!(nav.focused_column, 1);
    assert_eq!(nav.columns[1].selected_index, 2);
    assert_eq!(nav.columns[0].selected_index, 1);
}

#[test]
fn folder_click_on_track_plays_it() {
    let mut fs = Some(FolderNav { columns: vec![column()], focused_column: 0 });
    let r = folder_row_click(&mut fs, 0, 1, false);
    assert!(matches!(r, Some(Action::PlayFolderTrack(1))));
}

#[test]
fn folder_click_outside_changes_nothing() {
    let mut fs = Some(FolderNav { columns: vec![column()], focused_column: 0 });
    assert!(folder_row_click(&mut fs, 3, 0, true).is_none());
    assert_eq!(fs.as_ref().unwrap().focused_column, 0);
    let r = folder_row_click(&mut fs, 0, 9, true);
    assert!(r.is_none());
    assert_eq!(fs.as_ref().unwrap().columns[0].selected_index, 1);
    let mut none: Option<FolderNav> = None;
    assert!(folder_row_click(&mut none, 0, 0, true).is_none());
    assert!(matches!(folder_row_click(&mut none, 0, 4, false), Some(Action::PlayFolderTrack(4))));
}
